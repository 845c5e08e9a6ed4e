use vstd::prelude::*;
use vstd::string::StringExecFns;

verus! {

/// An ID for a "unit" which is a compound virtual object that is a semantic
/// combination of a drone, dock, and potentially other hardware.
///
/// Currently this can be any generic string and is notably also externally
/// editable.
#[derive(Debug, Hash)]
pub struct UnitId(String);

impl View for UnitId {
    type V = Seq<char>;

    closed spec fn view(&self) -> Seq<char> {
        self.0@
    }
}

impl UnitId {
    /// Create a new [`UnitId`] from its underlying text.
    pub fn new(id: String) -> (r: Self)
        ensures
            r@ == id@,
    {
        UnitId(id)
    }

    /// Returns the underlying string slice.
    pub fn as_str(&self) -> (r: &str)
        ensures
            r@ == self@,
    {
        self.0.as_str()
    }
}

impl Clone for UnitId {
    fn clone(&self) -> (r: Self)
        ensures
            r == *self,
            r@ == self@,
    {
        UnitId(self.0.clone())
    }
}

impl PartialEq for UnitId {
    fn eq(&self, other: &Self) -> (r: bool) {
        self.0 == other.0
    }
}

impl Eq for UnitId {}

impl vstd::std_specs::cmp::PartialEqSpecImpl for UnitId {
    open spec fn obeys_eq_spec() -> bool {
        true
    }

    open spec fn eq_spec(&self, other: &Self) -> bool {
        self@ == other@
    }
}

impl From<String> for UnitId {
    fn from(s: String) -> (r: Self) {
        UnitId(s)
    }
}

impl vstd::std_specs::convert::FromSpecImpl<String> for UnitId {
    open spec fn obeys_from_spec() -> bool {
        true
    }

    closed spec fn from_spec(s: String) -> Self {
        UnitId(s)
    }
}

impl<'a> From<&'a str> for UnitId {
    fn from(s: &'a str) -> (r: Self) {
        UnitId(String::from_str(s))
    }
}

impl<'a> vstd::std_specs::convert::FromSpecImpl<&'a str> for UnitId {
    open spec fn obeys_from_spec() -> bool {
        false
    }

    closed spec fn from_spec(s: &'a str) -> Self {
        UnitId(arbitrary())
    }
}

} // verus!
