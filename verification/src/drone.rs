use vstd::prelude::*;

use crate::unit::UnitId;

use self::error::{SessionAlreadyActive, SessionNotFound};

pub mod error;

verus! {

/// Identifier of one admitted drone session: the 128 bits of a randomly
/// generated UUID.
#[derive(Debug, Clone, Copy, Hash, PartialEq, Eq, Structural)]
pub struct DroneSessionId(u128);

#[verifier::external_type_specification]
#[verifier::external_body]
pub struct ExUuid(uuid::Uuid);

/// Relies on uuid::Uuid::new_v4: draws a random (version 4) UUID from system
/// entropy, so nothing is promised of the returned bits.
#[verifier::external_body]
fn random_uuid_bits() -> u128 {
    uuid::Uuid::new_v4().as_u128()
}

/// Relies on uuid::Uuid::from_u128: builds the UUID value carrying the given
/// 128 bits.
#[verifier::external_body]
fn uuid_of_bits(bits: u128) -> uuid::Uuid {
    uuid::Uuid::from_u128(bits)
}

impl DroneSessionId {
    /// Draw a fresh session identifier from system entropy.
    pub fn generate() -> Self {
        DroneSessionId(random_uuid_bits())
    }

    /// The identifier as a UUID value.
    pub fn as_uuid(&self) -> uuid::Uuid {
        uuid_of_bits(self.0)
    }
}

/// One admitted session: which unit it belongs to and its identifier.
#[derive(Debug)]
pub struct DroneSession {
    pub session_id: DroneSessionId,
    pub unit_id: UnitId,
}

/// Admission control for drone sessions: at most one active session exists
/// per unit at any instant. A session is created on first contact and removed
/// exactly once on departure; re-contact after removal creates a fresh
/// session.
#[derive(Debug)]
pub struct DroneSessionMap {
    sessions: Vec<DroneSession>,
}

impl DroneSessionMap {
    /// Number of active sessions.
    pub closed spec fn count(self) -> int {
        self.sessions@.len() as int
    }

    /// The unit identifier of the session at position `i`.
    pub closed spec fn id_at(self, i: int) -> Seq<char> {
        self.sessions@[i].unit_id@
    }

    /// The session identifier of the session at position `i`.
    pub closed spec fn sid_at(self, i: int) -> DroneSessionId {
        self.sessions@[i].session_id
    }

    /// Whether a session is active for the unit identifier `id`.
    pub open spec fn contains(self, id: Seq<char>) -> bool {
        exists|i: int| 0 <= i < self.count() && #[trigger] self.id_at(i) == id
    }

    /// The position of the active session for `id`.
    pub open spec fn index_of_id(self, id: Seq<char>) -> int {
        choose|i: int| 0 <= i < self.count() && #[trigger] self.id_at(i) == id
    }

    /// The session identifier of the active session for `id`.
    pub open spec fn session_id_of(self, id: Seq<char>) -> DroneSessionId {
        self.sid_at(self.index_of_id(id))
    }

    /// At most one active session exists per unit identifier.
    pub open spec fn wf(self) -> bool {
        forall|i: int, j: int|
            0 <= i < self.count() && 0 <= j < self.count() && i != j ==> #[trigger] self.id_at(i)
                != #[trigger] self.id_at(j)
    }

    /// With `id` present at position `k`, the chosen index is `k` itself.
    proof fn lemma_index(self, id: Seq<char>, k: int)
        requires
            self.wf(),
            0 <= k < self.count(),
            self.id_at(k) == id,
        ensures
            self.contains(id),
            self.index_of_id(id) == k,
            self.session_id_of(id) == self.sid_at(k),
    {
        assert(self.contains(id));
        let j = self.index_of_id(id);
        if j != k {
            assert(self.id_at(j) != self.id_at(k));
        }
    }

    pub fn new() -> (r: Self)
        ensures
            r.wf(),
            r.count() == 0,
            forall|id: Seq<char>| !(#[trigger] r.contains(id)),
    {
        DroneSessionMap { sessions: Vec::new() }
    }

    /// Find the position of the active session for the given unit, if any.
    fn find(&self, unit_id: &UnitId) -> (r: Option<usize>)
        ensures
            r matches Some(i) ==> 0 <= i < self.count() && self.id_at(i as int) == unit_id@,
            r is None ==> !self.contains(unit_id@),
    {
        let n = self.sessions.len();
        let mut i: usize = 0;
        while i < n
            invariant
                n == self.count(),
                0 <= i <= n,
                forall|j: int| 0 <= j < i ==> #[trigger] self.id_at(j) != unit_id@,
            decreases n - i,
        {
            if self.sessions[i].unit_id == *unit_id {
                return Some(i);
            }
            i = i + 1;
        }
        None
    }

    /// Atomically test-and-insert a session for the unit: fails without any
    /// change if a session is already active, otherwise records a session
    /// under a freshly generated identifier and returns that identifier.
    pub fn create_session(&mut self, unit_id: &UnitId) -> (res: Result<
        DroneSessionId,
        SessionAlreadyActive,
    >)
        requires
            old(self).wf(),
        ensures
            final(self).wf(),
            res is Ok <==> !old(self).contains(unit_id@),
            res is Err ==> *final(self) == *old(self),
            res matches Err(e) ==> e.unit_id@ == unit_id@,
            res matches Ok(sid) ==> {
                &&& final(self).count() == old(self).count() + 1
                &&& final(self).contains(unit_id@)
                &&& final(self).session_id_of(unit_id@) == sid
                &&& forall|id: Seq<char>|
                    id != unit_id@ ==> (#[trigger] final(self).contains(id) <==> old(self).contains(
                        id,
                    ))
                &&& forall|id: Seq<char>|
                    id != unit_id@ && old(self).contains(id) ==> #[trigger] final(self).session_id_of(id) == old(self).session_id_of(id)
            },
    {
        match self.find(unit_id) {
            Some(_) => Err(SessionAlreadyActive { unit_id: unit_id.clone() }),
            None => {
                let session_id = DroneSessionId::generate();
                self.sessions.push(DroneSession { session_id, unit_id: unit_id.clone() });
                proof {
                    let n0 = old(self).count();
                    assert forall|k: int| 0 <= k < n0 implies self.sessions@[k] == old(self).sessions@[k] by {}
                    assert(self.id_at(n0) == unit_id@);
                    assert(self.sid_at(n0) == session_id);
                    assert forall|i: int, j: int|
                        0 <= i < self.count() && 0 <= j < self.count() && i
                            != j implies #[trigger] self.id_at(i) != #[trigger] self.id_at(j) by {
                        if i < n0 && j < n0 {
                            assert(old(self).id_at(i) != old(self).id_at(j));
                            assert(self.id_at(i) == old(self).id_at(i));
                            assert(self.id_at(j) == old(self).id_at(j));
                        } else if i < n0 && j == n0 {
                            assert(self.id_at(i) == old(self).id_at(i));
                            assert(old(self).id_at(i) != unit_id@);
                        } else if j < n0 && i == n0 {
                            assert(self.id_at(j) == old(self).id_at(j));
                            assert(old(self).id_at(j) != unit_id@);
                        }
                    }
                    self.lemma_index(unit_id@, n0);
                    assert forall|id: Seq<char>|
                        id != unit_id@ implies (#[trigger] self.contains(id) <==> old(self).contains(id)) by {
                        if old(self).contains(id) {
                            let k = old(self).index_of_id(id);
                            assert(old(self).id_at(k) == id);
                            assert(self.id_at(k) == id);
                            assert(self.contains(id));
                        }
                        if self.contains(id) {
                            let k = self.index_of_id(id);
                            assert(self.id_at(k) == id);
                            assert(k != n0);
                            assert(old(self).id_at(k) == id);
                            assert(old(self).contains(id));
                        }
                    }
                    assert forall|id: Seq<char>|
                        id != unit_id@ && old(self).contains(id) implies #[trigger] self.session_id_of(id) == old(self).session_id_of(id) by {
                        let k = old(self).index_of_id(id);
                        old(self).lemma_index(id, k);
                        assert(self.id_at(k) == id);
                        self.lemma_index(id, k);
                    }
                }
                Ok(session_id)
            },
        }
    }

    /// Remove the active session for the unit, returning it; fails without
    /// any change if none is active.
    pub fn remove_session(&mut self, unit_id: &UnitId) -> (res: Result<DroneSession, SessionNotFound
    >)
        requires
            old(self).wf(),
        ensures
            final(self).wf(),
            res is Ok <==> old(self).contains(unit_id@),
            res is Err ==> *final(self) == *old(self),
            res matches Err(e) ==> e.unit_id@ == unit_id@,
            res matches Ok(s) ==> {
                &&& s.unit_id@ == unit_id@
                &&& s.session_id == old(self).session_id_of(unit_id@)
                &&& final(self).count() == old(self).count() - 1
                &&& !final(self).contains(unit_id@)
                &&& forall|id: Seq<char>|
                    id != unit_id@ ==> (#[trigger] final(self).contains(id) <==> old(self).contains(
                        id,
                    ))
                &&& forall|id: Seq<char>|
                    id != unit_id@ && old(self).contains(id) ==> #[trigger] final(self).session_id_of(id) == old(self).session_id_of(id)
            },
    {
        match self.find(unit_id) {
            Some(i) => {
                let session = self.sessions.remove(i);
                proof {
                    let n0 = old(self).count();
                    old(self).lemma_index(unit_id@, i as int);
                    assert forall|k: int| 0 <= k < self.count() implies #[trigger] self.sessions@[k]
                        == (if k < i { old(self).sessions@[k] } else {
                            old(self).sessions@[k + 1]
                        }) by {}
                    assert forall|a: int, b: int|
                        0 <= a < self.count() && 0 <= b < self.count() && a
                            != b implies #[trigger] self.id_at(a) != #[trigger] self.id_at(b) by {
                        let a0 = if a < i { a } else { a + 1 };
                        let b0 = if b < i { b } else { b + 1 };
                        assert(self.id_at(a) == old(self).id_at(a0));
                        assert(self.id_at(b) == old(self).id_at(b0));
                        assert(old(self).id_at(a0) != old(self).id_at(b0));
                    }
                    assert forall|id: Seq<char>|
                        id != unit_id@ implies (#[trigger] self.contains(id) <==> old(self).contains(id)) by {
                        if old(self).contains(id) {
                            let k = old(self).index_of_id(id);
                            old(self).lemma_index(id, k);
                            assert(k != i);
                            let k1 = if k < i { k } else { k - 1 };
                            assert(self.id_at(k1) == old(self).id_at(k));
                            assert(self.contains(id));
                        }
                        if self.contains(id) {
                            let k = self.index_of_id(id);
                            assert(self.id_at(k) == id);
                            let k0 = if k < i { k } else { k + 1 };
                            assert(old(self).id_at(k0) == id);
                            assert(old(self).contains(id));
                        }
                    }
                    assert forall|id: Seq<char>|
                        id != unit_id@ && old(self).contains(id) implies #[trigger] self.session_id_of(id) == old(self).session_id_of(id) by {
                        let k = old(self).index_of_id(id);
                        old(self).lemma_index(id, k);
                        assert(k != i);
                        let k1 = if k < i { k } else { k - 1 };
                        assert(self.id_at(k1) == old(self).id_at(k));
                        assert(self.sid_at(k1) == old(self).sid_at(k));
                        self.lemma_index(id, k1);
                    }
                    assert forall|k: int| 0 <= k < self.count() implies #[trigger] self.id_at(k)
                        != unit_id@ by {
                        let k0 = if k < i { k } else { k + 1 };
                        assert(self.id_at(k) == old(self).id_at(k0));
                        if k0 != i {
                            assert(old(self).id_at(k0) != old(self).id_at(i as int));
                        }
                    }
                }
                Ok(session)
            },
            None => Err(SessionNotFound { unit_id: unit_id.clone() }),
        }
    }

    /// Whether a session is currently active for the unit.
    pub fn has_active_session(&self, unit_id: &UnitId) -> (r: bool)
        ensures
            r == self.contains(unit_id@),
    {
        match self.find(unit_id) {
            Some(i) => {
                proof {
                    assert(self.contains(unit_id@));
                }
                true
            },
            None => false,
        }
    }

    /// The identifier of the active session for the unit, if any.
    pub fn get_session_id(&self, unit_id: &UnitId) -> (r: Option<DroneSessionId>)
        requires
            self.wf(),
        ensures
            r is Some <==> self.contains(unit_id@),
            r matches Some(sid) ==> sid == self.session_id_of(unit_id@),
    {
        match self.find(unit_id) {
            Some(i) => {
                proof {
                    self.lemma_index(unit_id@, i as int);
                }
                Some(self.sessions[i].session_id)
            },
            None => None,
        }
    }

    /// Number of active sessions.
    pub fn active_session_count(&self) -> (r: usize)
        ensures
            r == self.count(),
    {
        self.sessions.len()
    }
}

impl Default for DroneSessionMap {
    fn default() -> (r: Self)
        ensures
            r.wf(),
            r.count() == 0,
            forall|id: Seq<char>| !(#[trigger] r.contains(id)),
    {
        DroneSessionMap::new()
    }
}

} // verus!
