//! Decision cores of the tasks that bridge transport streams to per-unit
//! state: storing a decoded telemetry frame, queueing a command for
//! delivery, draining the next command to send, and admitting a drone
//! session on first contact.
//!
//! The surrounding tasks perform the transport work (reading frames,
//! writing frames, pacing polls) and hand these functions plain values; the
//! registry bookkeeping they decide on is verified here.

use vstd::prelude::*;

use crate::drone::error::SessionAlreadyActive;
use crate::drone::{DroneSessionId, DroneSessionMap};
use crate::state_machine::telemetry::Position;
use crate::unit::UnitId;
use crate::unit_context::UnitContext;
use crate::unit_map::UnitMap;

verus! {

/// Store a freshly decoded telemetry position into the unit's context.
///
/// Returns whether the unit still exists; a missing unit is no error, there
/// is simply nothing to do. All other units are untouched.
pub fn record_unit_telemetry(map: &mut UnitMap<UnitContext>, unit_id: &UnitId, pos: Position) -> (ok:
    bool)
    requires
        old(map).wf(),
    ensures
        final(map).wf(),
        ok <==> old(map).contains_id(unit_id@),
        !ok ==> *final(map) == *old(map),
        ok ==> {
            &&& final(map).contains_id(unit_id@)
            &&& final(map).record_of(unit_id@).telemetry_latest() == Some(pos@)
            &&& final(map).record_of(unit_id@).telemetry_pending()
            &&& final(map).record_of(unit_id@).commands() == old(map).record_of(
                unit_id@,
            ).commands()
            &&& forall|id: Seq<char>|
                id != unit_id@ ==> (#[trigger] final(map).contains_id(id) <==> old(map).contains_id(id))
            &&& forall|id: Seq<char>|
                id != unit_id@ && old(map).contains_id(id) ==> #[trigger] final(map).record_of(id)
                    == old(map).record_of(id)
        },
    {
        let unit_ref = match map.get_unit(unit_id) {
            Ok(r) => r,
            Err(_) => {
                return false;
            },
        };
        let res = unit_ref.update(
            map,
            (|ctx: UnitContext| -> (out: (UnitContext, ()))
                ensures
                    out.0.commands() == ctx.commands(),
                    out.0.telemetry_latest() == Some(pos@),
                    out.0.telemetry_pending(),
                {
                    let mut c = ctx;
                    c.update_telemetry(pos);
                    (c, ())
                }),
        );
        proof {
            lemma_update_resolves(*old(map), *map, unit_ref.idx(), unit_id@);
        }
        res.is_ok()
    }

/// After an in-place change of the one live slot `idx` holding `uid`, both
/// maps resolve every identifier to the same slot as before.
proof fn lemma_update_resolves(
    m0: UnitMap<UnitContext>,
    m1: UnitMap<UnitContext>,
    idx: int,
    uid: Seq<char>,
)
    requires
        m0.wf(),
        m1.wf(),
        0 <= idx < m0.num_slots(),
        m0.slot_live(idx),
        m0.slot_id(idx) == uid,
        m1.num_slots() == m0.num_slots(),
        forall|i: int| 0 <= i < m1.num_slots() ==> #[trigger] m1.slot_id(i) == m0.slot_id(i),
        forall|i: int|
            0 <= i < m1.num_slots() ==> (#[trigger] m1.slot_live(i) <==> m0.slot_live(i)),
        forall|i: int|
            0 <= i < m1.num_slots() && i != idx && #[trigger] m1.slot_live(i) ==> m1.slot_record(i)
                == m0.slot_record(i),
    ensures
        m0.contains_id(uid),
        m0.index_of(uid) == idx,
        m0.record_of(uid) == m0.slot_record(idx),
        m1.contains_id(uid),
        m1.record_of(uid) == m1.slot_record(idx),
        forall|id: Seq<char>|
            id != uid ==> (#[trigger] m1.contains_id(id) <==> m0.contains_id(id)),
        forall|id: Seq<char>|
            id != uid && m0.contains_id(id) ==> #[trigger] m1.record_of(id) == m0.record_of(id),
{
    m0.lemma_index(uid, idx);
    m1.lemma_index(uid, idx);
    assert forall|id: Seq<char>|
        id != uid implies (#[trigger] m1.contains_id(id) <==> m0.contains_id(id)) by {
        if m0.contains_id(id) {
            let k = m0.index_of(id);
            m0.lemma_index(id, k);
            assert(m1.slot_live(k) && m1.slot_id(k) == id);
            assert(m1.contains_id(id));
        }
        if m1.contains_id(id) {
            let k = m1.index_of(id);
            m1.lemma_index(id, k);
            assert(m0.slot_live(k) && m0.slot_id(k) == id);
            assert(m0.contains_id(id));
        }
    }
    assert forall|id: Seq<char>|
        id != uid && m0.contains_id(id) implies #[trigger] m1.record_of(id) == m0.record_of(
        id,
    ) by {
        let k = m0.index_of(id);
        m0.lemma_index(id, k);
        assert(m1.slot_live(k) && m1.slot_id(k) == id);
        m1.lemma_index(id, k);
        assert(k != idx);
        assert(m1.slot_record(k) == m0.slot_record(k));
    }
}

/// Queue a command payload for later delivery to the unit.
///
/// Returns whether the unit still exists. The command lands at the back of
/// the unit's queue; telemetry and all other units are untouched.
pub fn enqueue_unit_command(map: &mut UnitMap<UnitContext>, unit_id: &UnitId, cmd: Vec<u8>) -> (ok:
    bool)
    requires
        old(map).wf(),
    ensures
        final(map).wf(),
        ok <==> old(map).contains_id(unit_id@),
        !ok ==> *final(map) == *old(map),
        ok ==> {
            &&& final(map).contains_id(unit_id@)
            &&& final(map).record_of(unit_id@).commands() == old(map).record_of(
                unit_id@,
            ).commands().push(cmd)
            &&& final(map).record_of(unit_id@).telemetry_latest() == old(map).record_of(
                unit_id@,
            ).telemetry_latest()
            &&& final(map).record_of(unit_id@).telemetry_pending() == old(map).record_of(
                unit_id@,
            ).telemetry_pending()
            &&& forall|id: Seq<char>|
                id != unit_id@ ==> (#[trigger] final(map).contains_id(id) <==> old(map).contains_id(id))
            &&& forall|id: Seq<char>|
                id != unit_id@ && old(map).contains_id(id) ==> #[trigger] final(map).record_of(id)
                    == old(map).record_of(id)
        },
    {
        let unit_ref = match map.get_unit(unit_id) {
            Ok(r) => r,
            Err(_) => {
                return false;
            },
        };
        let res = unit_ref.update(
            map,
            (|ctx: UnitContext| -> (out: (UnitContext, ()))
                ensures
                    out.0.commands() == ctx.commands().push(cmd),
                    out.0.telemetry_latest() == ctx.telemetry_latest(),
                    out.0.telemetry_pending() == ctx.telemetry_pending(),
                {
                    let mut c = ctx;
                    c.enqueue_command(cmd);
                    (c, ())
                }),
        );
        proof {
            lemma_update_resolves(*old(map), *map, unit_ref.idx(), unit_id@);
        }
        res.is_ok()
    }

/// Drain the next command queued for the unit, if any, in strict FIFO order.
///
/// A missing unit and an empty queue both yield nothing; telemetry and all
/// other units are untouched.
pub fn poll_unit_command(map: &mut UnitMap<UnitContext>, unit_id: &UnitId) -> (r: Option<Vec<u8>>)
    requires
        old(map).wf(),
    ensures
        final(map).wf(),
        !old(map).contains_id(unit_id@) ==> r is None && *final(map) == *old(map),
        old(map).contains_id(unit_id@) ==> {
            &&& final(map).contains_id(unit_id@)
            &&& match r {
                Some(cmd) => {
                    &&& old(map).record_of(unit_id@).commands().len() > 0
                    &&& cmd == old(map).record_of(unit_id@).commands()[0]
                    &&& final(map).record_of(unit_id@).commands() == old(map).record_of(
                        unit_id@,
                    ).commands().subrange(
                        1,
                        old(map).record_of(unit_id@).commands().len() as int,
                    )
                },
                None => {
                    &&& old(map).record_of(unit_id@).commands().len() == 0
                    &&& final(map).record_of(unit_id@).commands() == old(map).record_of(
                        unit_id@,
                    ).commands()
                },
            }
            &&& final(map).record_of(unit_id@).telemetry_latest() == old(map).record_of(
                unit_id@,
            ).telemetry_latest()
            &&& final(map).record_of(unit_id@).telemetry_pending() == old(map).record_of(
                unit_id@,
            ).telemetry_pending()
            &&& forall|id: Seq<char>|
                id != unit_id@ ==> (#[trigger] final(map).contains_id(id) <==> old(map).contains_id(id))
            &&& forall|id: Seq<char>|
                id != unit_id@ && old(map).contains_id(id) ==> #[trigger] final(map).record_of(id)
                    == old(map).record_of(id)
        },
    {
        let unit_ref = match map.get_unit(unit_id) {
            Ok(r) => r,
            Err(_) => {
                return None;
            },
        };
        let res = unit_ref.update(
            map,
            (|ctx: UnitContext| -> (out: (UnitContext, Option<Vec<u8>>))
                ensures
                    out.0.telemetry_latest() == ctx.telemetry_latest(),
                    out.0.telemetry_pending() == ctx.telemetry_pending(),
                    match out.1 {
                        Some(cmd) => {
                            &&& ctx.commands().len() > 0
                            &&& cmd == ctx.commands()[0]
                            &&& out.0.commands() == ctx.commands().subrange(
                                1,
                                ctx.commands().len() as int,
                            )
                        },
                        None => {
                            &&& ctx.commands().len() == 0
                            &&& out.0.commands() == ctx.commands()
                        },
                    },
                {
                    let mut c = ctx;
                    let cmd = c.poll_command();
                    (c, cmd)
                }),
        );
        proof {
            lemma_update_resolves(*old(map), *map, unit_ref.idx(), unit_id@);
        }
        match res {
            Ok(cmd) => cmd,
            Err(_) => None,
        }
    }

/// Admission step for a drone's first contact: make sure a unit context
/// exists (creating a fresh, empty one if needed) and atomically admit a
/// session for the unit.
///
/// A duplicate concurrent session is rejected and leaves the session map
/// untouched; the unit context, created or pre-existing, remains either way.
pub fn admit_drone(
    units: &mut UnitMap<UnitContext>,
    sessions: &mut DroneSessionMap,
    unit_id: &UnitId,
) -> (res: Result<DroneSessionId, SessionAlreadyActive>)
    requires
        old(units).wf(),
        old(sessions).wf(),
    ensures
        final(units).wf(),
        final(sessions).wf(),
        res is Ok <==> !old(sessions).contains(unit_id@),
        res matches Err(e) ==> e.unit_id@ == unit_id@ && *final(sessions) == *old(sessions),
        final(units).contains_id(unit_id@),
        old(units).contains_id(unit_id@) ==> *final(units) == *old(units),
        !old(units).contains_id(unit_id@) ==> {
            &&& final(units).record_of(unit_id@).commands() == Seq::<Vec<u8>>::empty()
            &&& final(units).record_of(unit_id@).telemetry_latest() is None
            &&& !final(units).record_of(unit_id@).telemetry_pending()
            &&& forall|id: Seq<char>|
                id != unit_id@ ==> (#[trigger] final(units).contains_id(id) <==> old(units).contains_id(id))
            &&& forall|id: Seq<char>|
                id != unit_id@ && old(units).contains_id(id) ==> #[trigger] final(units).record_of(id) == old(units).record_of(id)
        },
        res matches Ok(sid) ==> {
            &&& final(sessions).contains(unit_id@)
            &&& final(sessions).session_id_of(unit_id@) == sid
            &&& final(sessions).count() == old(sessions).count() + 1
            &&& forall|id: Seq<char>|
                id != unit_id@ ==> (#[trigger] final(sessions).contains(id) <==> old(sessions).contains(id))
        },
    {
        let have = match units.get_unit(unit_id) {
            Ok(_) => true,
            Err(_) => false,
        };
        if !have {
            let inserted = units.insert_unit(unit_id.clone(), UnitContext::new());
            proof {
                assert(inserted is Ok);
                let n0 = old(units).num_slots();
                units.lemma_index(unit_id@, n0);
                assert forall|id: Seq<char>|
                    id != unit_id@ implies (#[trigger] units.contains_id(id) <==> old(units).contains_id(id)) by {
                    if old(units).contains_id(id) {
                        let k = old(units).index_of(id);
                        old(units).lemma_index(id, k);
                        assert(units.slot_live(k) && units.slot_id(k) == id);
                        assert(units.contains_id(id));
                    }
                    if units.contains_id(id) {
                        let k = units.index_of(id);
                        units.lemma_index(id, k);
                        assert(k != n0);
                        assert(old(units).slot_live(k) && old(units).slot_id(k) == id);
                        assert(old(units).contains_id(id));
                    }
                }
                assert forall|id: Seq<char>|
                    id != unit_id@ && old(units).contains_id(id) implies #[trigger] units.record_of(
                    id,
                ) == old(units).record_of(id) by {
                    let k = old(units).index_of(id);
                    old(units).lemma_index(id, k);
                    assert(units.slot_live(k) && units.slot_id(k) == id);
                    units.lemma_index(id, k);
                }
            }
        }
        sessions.create_session(unit_id)
    }

/// Why a command could not be delivered to a drone.
#[derive(Debug, PartialEq, Eq, Structural)]
pub enum DeliverError {
    /// No session is active for the drone.
    NotConnected,
    /// A session is active but the unit context has been removed.
    UnitMissing,
}

/// Delivery step of a one-shot command call: accept the command only for a
/// drone with an active session and a live unit context, and queue it there.
pub fn deliver_command(
    units: &mut UnitMap<UnitContext>,
    sessions: &DroneSessionMap,
    unit_id: &UnitId,
    cmd: Vec<u8>,
) -> (res: Result<(), DeliverError>)
    requires
        old(units).wf(),
    ensures
        final(units).wf(),
        res is Ok <==> (sessions.contains(unit_id@) && old(units).contains_id(unit_id@)),
        res is Err ==> *final(units) == *old(units),
        res matches Err(e) ==> (e is NotConnected <==> !sessions.contains(unit_id@)),
        res is Ok ==> {
            &&& final(units).contains_id(unit_id@)
            &&& final(units).record_of(unit_id@).commands() == old(units).record_of(
                unit_id@,
            ).commands().push(cmd)
            &&& final(units).record_of(unit_id@).telemetry_latest() == old(units).record_of(
                unit_id@,
            ).telemetry_latest()
            &&& forall|id: Seq<char>|
                id != unit_id@ ==> (#[trigger] final(units).contains_id(id) <==> old(units).contains_id(id))
            &&& forall|id: Seq<char>|
                id != unit_id@ && old(units).contains_id(id) ==> #[trigger] final(units).record_of(id) == old(units).record_of(id)
        },
    {
        if !sessions.has_active_session(unit_id) {
            return Err(DeliverError::NotConnected);
        }
        if enqueue_unit_command(units, unit_id, cmd) {
            Ok(())
        } else {
            Err(DeliverError::UnitMissing)
        }
    }

} // verus!
