use vstd::prelude::*;

pub use crate::unit::UnitId;

use self::error::{UnitAlreadyPresent, UnitNotFound};
use self::unit_ref::UnitRef;

pub mod error;
pub mod unit_ref;

verus! {

/// One storage slot of a [`UnitMap`]. A slot is allocated when a unit is
/// inserted and is emptied, never reused, when the unit is removed; a fresh
/// insertion of the same identifier gets a fresh slot.
pub(crate) struct UnitSlot<T> {
    pub(crate) unit_id: UnitId,
    pub(crate) occupant: Option<T>,
}

/// A map of units identified by a [`UnitId`] and their associated context `T`.
///
/// When a unit is added to the map it becomes a shared resource for which only
/// scope-limited access can be obtained through the [`UnitRef`] interface.
///
/// The map holds the only owning slot for each context. External handles are
/// non-owning: once the slot is emptied by [`remove_unit`](Self::remove_unit),
/// every outstanding [`UnitRef`] fails its access attempt, so no caller can
/// observe a destroyed unit.
pub struct UnitMap<T> {
    slots: Vec<UnitSlot<T>>,
}

impl<T> UnitMap<T> {
    /// Number of slots ever allocated, live or emptied.
    pub closed spec fn num_slots(self) -> int {
        self.slots@.len() as int
    }

    /// The identifier that slot `i` was allocated for.
    pub closed spec fn slot_id(self, i: int) -> Seq<char> {
        self.slots@[i].unit_id@
    }

    /// Whether slot `i` still holds its context.
    pub closed spec fn slot_live(self, i: int) -> bool {
        self.slots@[i].occupant is Some
    }

    /// The context held by slot `i`, when live.
    pub closed spec fn slot_record(self, i: int) -> T {
        match self.slots@[i].occupant {
            Some(t) => t,
            None => arbitrary(),
        }
    }

    /// Whether a live unit with identifier `id` is present.
    pub open spec fn contains_id(self, id: Seq<char>) -> bool {
        exists|i: int|
            0 <= i < self.num_slots() && #[trigger] self.slot_live(i) && self.slot_id(i) == id
    }

    /// The slot index of the live unit with identifier `id`.
    pub open spec fn index_of(self, id: Seq<char>) -> int {
        choose|i: int|
            0 <= i < self.num_slots() && #[trigger] self.slot_live(i) && self.slot_id(i) == id
    }

    /// The context of the live unit with identifier `id`.
    pub open spec fn record_of(self, id: Seq<char>) -> T {
        self.slot_record(self.index_of(id))
    }

    /// At most one live slot exists per identifier.
    pub open spec fn wf(self) -> bool {
        forall|i: int, j: int|
            0 <= i < self.num_slots() && 0 <= j < self.num_slots() && i != j && self.slot_live(i)
                && self.slot_live(j) ==> #[trigger] self.slot_id(i) != #[trigger] self.slot_id(j)
    }

    /// With a live slot `k` for `id`, that slot is the one the map resolves
    /// `id` to.
    pub proof fn lemma_index(self, id: Seq<char>, k: int)
        requires
            self.wf(),
            0 <= k < self.num_slots(),
            self.slot_live(k),
            self.slot_id(k) == id,
        ensures
            self.contains_id(id),
            self.index_of(id) == k,
            self.record_of(id) == self.slot_record(k),
    {
        assert(self.contains_id(id));
        let j = self.index_of(id);
        if j != k {
            assert(self.slot_id(j) != self.slot_id(k));
        }
    }

    /// Construct a new empty [`UnitMap`].
    pub fn new() -> (r: UnitMap<T>)
        ensures
            r.wf(),
            r.num_slots() == 0,
            forall|id: Seq<char>| !(#[trigger] r.contains_id(id)),
    {
        UnitMap { slots: Vec::new() }
    }

    /// Find the slot of the live unit with the given identifier, if any.
    fn find_live(&self, unit_id: &UnitId) -> (r: Option<usize>)
        ensures
            r matches Some(i) ==> 0 <= i < self.num_slots() && self.slot_live(i as int)
                && self.slot_id(i as int) == unit_id@,
            r is None ==> !self.contains_id(unit_id@),
    {
        let n = self.slots.len();
        let mut i: usize = 0;
        while i < n
            invariant
                n == self.num_slots(),
                0 <= i <= n,
                forall|j: int|
                    0 <= j < i ==> !(#[trigger] self.slot_live(j) && self.slot_id(j) == unit_id@),
            decreases n - i,
        {
            let slot = &self.slots[i];
            if slot.occupant.is_some() && slot.unit_id == *unit_id {
                return Some(i);
            }
            i = i + 1;
        }
        None
    }

    /// Create a unit entity entry tracked by the `unit_id` and associated with
    /// the `unit_context`.
    pub fn insert_unit(&mut self, unit_id: UnitId, unit_context: T) -> (res: Result<
        (),
        UnitAlreadyPresent,
    >)
        requires
            old(self).wf(),
        ensures
            final(self).wf(),
            res is Ok <==> !old(self).contains_id(unit_id@),
            res is Err ==> *final(self) == *old(self),
            res matches Err(e) ==> e.unit_id@ == unit_id@,
            res is Ok ==> {
                &&& final(self).num_slots() == old(self).num_slots() + 1
                &&& forall|i: int|
                    0 <= i < old(self).num_slots() ==> #[trigger] final(self).slot_id(i)
                        == old(self).slot_id(i)
                &&& forall|i: int|
                    0 <= i < old(self).num_slots() ==> (#[trigger] final(self).slot_live(i) <==> old(self).slot_live(i))
                &&& forall|i: int|
                    0 <= i < old(self).num_slots() && old(self).slot_live(i) ==> #[trigger] final(self).slot_record(i) == old(self).slot_record(i)
                &&& final(self).slot_live(old(self).num_slots())
                &&& final(self).slot_id(old(self).num_slots()) == unit_id@
                &&& final(self).slot_record(old(self).num_slots()) == unit_context
                &&& final(self).contains_id(unit_id@)
            },
    {
        match self.find_live(&unit_id) {
            Some(_) => Err(UnitAlreadyPresent { unit_id }),
            None => {
                self.slots.push(UnitSlot { unit_id, occupant: Some(unit_context) });
                proof {
                    let n0 = old(self).num_slots();
                    assert(self.num_slots() == n0 + 1);
                    assert(self.slot_id(n0) == unit_id@);
                    assert(self.slot_live(n0));
                    assert forall|i: int| 0 <= i < n0 implies #[trigger] self.slot_id(i) == old(
                        self,
                    ).slot_id(i) by {
                        assert(self.slots@[i] == old(self).slots@[i]);
                    }
                    assert forall|i: int|
                        0 <= i < n0 implies (#[trigger] self.slot_live(i) <==> old(
                        self,
                    ).slot_live(i)) by {
                        assert(self.slots@[i] == old(self).slots@[i]);
                    }
                    assert forall|i: int|
                        0 <= i < n0 && old(self).slot_live(i) implies #[trigger] self.slot_record(i)
                            == old(self).slot_record(i) by {
                        assert(self.slots@[i] == old(self).slots@[i]);
                    }
                    assert forall|a: int, b: int|
                        0 <= a < self.num_slots() && 0 <= b < self.num_slots() && a != b
                            && self.slot_live(a) && self.slot_live(b) implies #[trigger] self.slot_id(
                        a,
                    ) != #[trigger] self.slot_id(b) by {
                        if a < n0 && b < n0 {
                            assert(self.slots@[a] == old(self).slots@[a]);
                            assert(self.slots@[b] == old(self).slots@[b]);
                            assert(old(self).slot_live(a) && old(self).slot_live(b));
                            assert(old(self).slot_id(a) != old(self).slot_id(b));
                        } else if a < n0 && b == n0 {
                            assert(self.slots@[a] == old(self).slots@[a]);
                            assert(old(self).slot_live(a));
                            assert(old(self).slot_id(a) != unit_id@);
                        } else if b < n0 && a == n0 {
                            assert(self.slots@[b] == old(self).slots@[b]);
                            assert(old(self).slot_live(b));
                            assert(old(self).slot_id(b) != unit_id@);
                        }
                    }
                }
                Ok(())
            },
        }
    }

    /// Remove the unit entity for the provided `unit_id`.
    ///
    /// The slot's context is dropped immediately; outstanding [`UnitRef`]
    /// handles for the unit subsequently fail their access attempts.
    pub fn remove_unit(&mut self, unit_id: &UnitId) -> (res: Result<(), UnitNotFound>)
        requires
            old(self).wf(),
        ensures
            final(self).wf(),
            res is Ok <==> old(self).contains_id(unit_id@),
            res is Err ==> *final(self) == *old(self),
            res matches Err(e) ==> e.unit_id@ == unit_id@,
            res is Ok ==> {
                &&& final(self).num_slots() == old(self).num_slots()
                &&& forall|i: int|
                    0 <= i < final(self).num_slots() ==> #[trigger] final(self).slot_id(i)
                        == old(self).slot_id(i)
                &&& forall|i: int|
                    0 <= i < final(self).num_slots() ==> (#[trigger] final(self).slot_live(i)
                        <==> (old(self).slot_live(i) && old(self).slot_id(i) != unit_id@))
                &&& forall|i: int|
                    0 <= i < final(self).num_slots() && #[trigger] final(self).slot_live(i)
                        ==> final(self).slot_record(i) == old(self).slot_record(i)
                &&& !final(self).contains_id(unit_id@)
            },
    {
        match self.find_live(unit_id) {
            Some(i) => {
                let slot = &mut self.slots[i];
                slot.occupant = None;
                proof {
                    assert forall|k: int| 0 <= k < self.num_slots() implies #[trigger] self.slot_id(
                        k,
                    ) == old(self).slot_id(k) && (self.slot_live(k) <==> (old(self).slot_live(k)
                        && old(self).slot_id(k) != unit_id@)) && (self.slot_live(k)
                        ==> self.slot_record(k) == old(self).slot_record(k)) by {
                        if k != i as int {
                            assert(self.slots@[k] == old(self).slots@[k]);
                            if old(self).slot_live(k) && old(self).slot_id(k) == unit_id@ {
                                assert(old(self).slot_live(i as int));
                                assert(old(self).slot_id(i as int) == unit_id@);
                                assert(false);
                            }
                        }
                    }
                }
                Ok(())
            },
            None => Err(UnitNotFound { unit_id: unit_id.clone() }),
        }
    }

    /// Lend the unit context for the provided `unit_id`.
    ///
    /// If the unit is present returns a [`UnitRef`] carrying a non-owning link
    /// to the unit context `T`.
    pub fn get_unit(&self, unit_id: &UnitId) -> (res: Result<UnitRef<T>, UnitNotFound>)
        requires
            self.wf(),
        ensures
            res is Ok <==> self.contains_id(unit_id@),
            res matches Ok(r) ==> r.valid(*self) && r.id() == unit_id@ && r.idx() == self.index_of(
                unit_id@,
            ),
            res matches Err(e) ==> e.unit_id@ == unit_id@,
    {
        match self.find_live(unit_id) {
            Some(i) => {
                proof {
                    self.lemma_index(unit_id@, i as int);
                }
                Ok(UnitRef::new(unit_id.clone(), i))
            },
            None => Err(UnitNotFound { unit_id: unit_id.clone() }),
        }
    }
}

impl<T> Default for UnitMap<T> {
    fn default() -> (r: Self)
        ensures
            r.wf(),
            r.num_slots() == 0,
            forall|id: Seq<char>| !(#[trigger] r.contains_id(id)),
    {
        UnitMap::new()
    }
}

} // verus!
