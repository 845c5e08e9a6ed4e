use vstd::prelude::*;

use super::error::UnitViewInvalid;
use super::{UnitId, UnitMap};

verus! {

/// A non-owning reference to a shared unit context that provides scoped access
/// through [`view`](Self::view) and [`update`](Self::update).
///
/// The reference carries the unit identifier and the index of the storage slot
/// it was created from. It never extends the context's lifetime: access fails
/// once the owning [`UnitMap`] has emptied the slot.
#[derive(Debug)]
pub struct UnitRef<T> {
    unit_id: UnitId,
    slot: usize,
    marker: core::marker::PhantomData<T>,
}

impl<T> UnitRef<T> {
    /// The identifier this reference was created for.
    pub closed spec fn id(self) -> Seq<char> {
        self.unit_id@
    }

    /// The storage slot this reference points at.
    pub closed spec fn idx(self) -> int {
        self.slot as int
    }

    /// The reference points at a slot of `map` that was allocated for its
    /// identifier.
    pub open spec fn wf_for(self, map: UnitMap<T>) -> bool {
        0 <= self.idx() < map.num_slots() && map.slot_id(self.idx()) == self.id()
    }

    /// The reference still reaches a live unit context in `map`.
    pub open spec fn valid(self, map: UnitMap<T>) -> bool {
        self.wf_for(map) && map.slot_live(self.idx())
    }

    /// Construct a new [`UnitRef`] from an identifier and the slot it lives in.
    pub(crate) fn new(unit_id: UnitId, slot: usize) -> (r: UnitRef<T>)
        ensures
            r.id() == unit_id@,
            r.idx() == slot as int,
    {
        UnitRef { unit_id, slot, marker: core::marker::PhantomData }
    }

    /// Scoped read access via a `view_fn` to the unit context for this
    /// reference.
    ///
    /// If the unit context still exists returns the value computed by the
    /// `view_fn`, else returns a [`UnitViewInvalid`] error indicating the unit
    /// context is no longer valid.
    pub fn view<F: FnOnce(&T) -> R, R>(&self, map: &UnitMap<T>, view_fn: F) -> (res: Result<
        R,
        UnitViewInvalid,
    >)
        requires
            map.wf(),
            forall|t: &T| #[trigger] call_requires(view_fn, (t,)),
        ensures
            res is Ok <==> self.valid(*map),
            res matches Ok(out) ==> call_ensures(view_fn, (&map.slot_record(self.idx()),), out),
            res matches Err(e) ==> e.unit_id@ == self.id(),
    {
        if self.slot < map.slots.len() {
            let slot = &map.slots[self.slot];
            if slot.unit_id == self.unit_id {
                match slot.occupant.as_ref() {
                    Some(record) => Ok(view_fn(record)),
                    None => Err(UnitViewInvalid { unit_id: self.unit_id.clone() }),
                }
            } else {
                Err(UnitViewInvalid { unit_id: self.unit_id.clone() })
            }
        } else {
            Err(UnitViewInvalid { unit_id: self.unit_id.clone() })
        }
    }

    /// Scoped exclusive access via an `update_fn` to the unit context for this
    /// reference.
    ///
    /// The `update_fn` consumes the current context and returns the context to
    /// store back together with a result for the caller. If the unit context
    /// no longer exists, returns a [`UnitViewInvalid`] error and leaves the
    /// map unchanged.
    pub fn update<F: FnOnce(T) -> (T, R), R>(&self, map: &mut UnitMap<T>, update_fn: F) -> (res:
        Result<R, UnitViewInvalid>)
        requires
            old(map).wf(),
            forall|t: T| #[trigger] call_requires(update_fn, (t,)),
        ensures
            final(map).wf(),
            res is Ok <==> self.valid(*old(map)),
            res is Err ==> *final(map) == *old(map),
            res matches Err(e) ==> e.unit_id@ == self.id(),
            res matches Ok(out) ==> {
                &&& final(map).num_slots() == old(map).num_slots()
                &&& forall|i: int|
                    0 <= i < final(map).num_slots() ==> #[trigger] final(map).slot_id(i)
                        == old(map).slot_id(i)
                &&& forall|i: int|
                    0 <= i < final(map).num_slots() ==> (#[trigger] final(map).slot_live(i)
                        <==> old(map).slot_live(i))
                &&& forall|i: int|
                    0 <= i < final(map).num_slots() && i != self.idx()
                        && #[trigger] final(map).slot_live(i)
                        ==> final(map).slot_record(i) == old(map).slot_record(i)
                &&& call_ensures(
                    update_fn,
                    (old(map).slot_record(self.idx()),),
                    (final(map).slot_record(self.idx()), out),
                )
            },
    {
        let live = self.slot < map.slots.len() && map.slots[self.slot].unit_id == self.unit_id
            && map.slots[self.slot].occupant.is_some();
        if live {
            let slot = &mut map.slots[self.slot];
            match slot.occupant.take() {
                Some(record) => {
                    let (updated, out) = update_fn(record);
                    slot.occupant = Some(updated);
                    proof {
                        assert forall|i: int| 0 <= i < map.num_slots() implies #[trigger] map.slot_id(
                            i,
                        ) == old(map).slot_id(i) by {
                            if i != self.idx() {
                                assert(map.slots@[i] == old(map).slots@[i]);
                            }
                        }
                        assert forall|i: int|
                            0 <= i < map.num_slots() implies (#[trigger] map.slot_live(i) <==> old(
                            map,
                        ).slot_live(i)) by {
                            if i != self.idx() {
                                assert(map.slots@[i] == old(map).slots@[i]);
                            }
                        }
                        assert forall|i: int|
                            0 <= i < map.num_slots() && i != self.idx() && #[trigger] map.slot_live(
                            i,
                        ) implies map.slot_record(i) == old(map).slot_record(i) by {
                            assert(map.slots@[i] == old(map).slots@[i]);
                        }
                    }
                    Ok(out)
                },
                None => {
                    proof {
                        assert(false);
                    }
                    Err(UnitViewInvalid { unit_id: self.unit_id.clone() })
                },
            }
        } else {
            Err(UnitViewInvalid { unit_id: self.unit_id.clone() })
        }
    }
}

/// Law: removal is final for outstanding references.
///
/// Let `r` reach a live unit in `m0`. Let `m1` be a state related to `m0` as
/// `remove_unit`'s contract relates its final state to its initial one for
/// `r`'s identifier, and let `m2` be related to `m1` as `insert_unit`'s
/// contract relates its states for a fresh insertion. Then `r` reaches
/// nothing in `m1` — `view` and `update` through it return `UnitViewInvalid`,
/// by their contracts — the identifier is free again in `m1`, so the fresh
/// insertion is accepted, and `r` still reaches nothing in `m2`: the new
/// record is independent of the removed one.
pub proof fn lemma_removal_invalidates_refs<T>(
    m0: UnitMap<T>,
    m1: UnitMap<T>,
    m2: UnitMap<T>,
    r: UnitRef<T>,
)
    requires
        m0.wf(),
        r.valid(m0),
        m1.num_slots() == m0.num_slots(),
        forall|i: int| 0 <= i < m1.num_slots() ==> #[trigger] m1.slot_id(i) == m0.slot_id(i),
        forall|i: int|
            0 <= i < m1.num_slots() ==> (#[trigger] m1.slot_live(i) <==> (m0.slot_live(i)
                && m0.slot_id(i) != r.id())),
        m2.num_slots() == m1.num_slots() + 1,
        forall|i: int| 0 <= i < m1.num_slots() ==> #[trigger] m2.slot_id(i) == m1.slot_id(i),
        forall|i: int| 0 <= i < m1.num_slots() ==> (#[trigger] m2.slot_live(i) <==> m1.slot_live(i)),
    ensures
        !r.valid(m1),
        !m1.contains_id(r.id()),
        !r.valid(m2),
{
    assert(!m1.slot_live(r.idx()));
    assert forall|i: int|
        0 <= i < m1.num_slots() implies !(#[trigger] m1.slot_live(i) && m1.slot_id(i)
        == r.id()) by {
        if m1.slot_live(i) {
            assert(m0.slot_id(i) != r.id());
            assert(m1.slot_id(i) == m0.slot_id(i));
        }
    }
    assert(!m2.slot_live(r.idx()));
}

impl<T> Clone for UnitRef<T> {
    fn clone(&self) -> (r: Self)
        ensures
            r.id() == self.id(),
            r.idx() == self.idx(),
    {
        UnitRef {
            unit_id: self.unit_id.clone(),
            slot: self.slot,
            marker: core::marker::PhantomData,
        }
    }
}

/// A [`UnitRef`] is defined only by the underlying [`UnitId`] matching.
impl<T> PartialEq<UnitId> for UnitRef<T> {
    fn eq(&self, other: &UnitId) -> (r: bool) {
        self.unit_id == *other
    }
}

impl<T> vstd::std_specs::cmp::PartialEqSpecImpl<UnitId> for UnitRef<T> {
    open spec fn obeys_eq_spec() -> bool {
        true
    }

    open spec fn eq_spec(&self, other: &UnitId) -> bool {
        self.id() == other@
    }
}

/// A [`UnitRef`] is defined only by the underlying [`UnitId`] matching.
impl<T> PartialEq<UnitRef<T>> for UnitId {
    fn eq(&self, other: &UnitRef<T>) -> (r: bool) {
        *self == *other.as_unit_id()
    }
}

impl<T> vstd::std_specs::cmp::PartialEqSpecImpl<UnitRef<T>> for UnitId {
    open spec fn obeys_eq_spec() -> bool {
        true
    }

    open spec fn eq_spec(&self, other: &UnitRef<T>) -> bool {
        self@ == other.id()
    }
}

impl<T> UnitRef<T> {
    /// The identifier this reference was created for, as a [`UnitId`].
    pub fn as_unit_id(&self) -> (r: &UnitId)
        ensures
            r@ == self.id(),
    {
        &self.unit_id
    }
}

} // verus!
