//! Server-side types: router configuration, session admission control and
//! the per-announcement routing decision.

use vstd::prelude::*;
use vstd::string::StringExecFns;

use super::error::RpcError;
use super::path::{
    join_path, lemma_split_unique, parsable, rest_of, spec_join, splits_as, str_eq, RpcRequestPath,
};
use crate::rpcmoq_lite::client::opt_prefix_view;

verus! {

/// Configuration for the RPC router.
#[derive(Debug)]
pub struct RpcRouterConfig {
    /// Optional prefix for client announcements (e.g., "client").
    /// If set, the router listens for announcements under this prefix.
    pub client_prefix: Option<String>,
    /// Optional prefix for server responses (e.g., "server").
    /// If set, responses are published at
    /// `{response_prefix}/{client_id}/{call_name}`; if not set, at
    /// `{client_id}/{call_name}`.
    pub response_prefix: Option<String>,
    /// Track name for RPC messages (e.g., "primary").
    pub track_name: String,
}

impl RpcRouterConfig {
    /// A configuration with the default track name.
    pub fn new(client_prefix: Option<String>, response_prefix: Option<String>) -> (r: Self)
        ensures
            r.client_prefix == client_prefix,
            r.response_prefix == response_prefix,
            r.track_name@ == "primary"@,
    {
        RpcRouterConfig {
            client_prefix,
            response_prefix,
            track_name: String::from_str("primary"),
        }
    }

    /// Build the response path for a client/call combination.
    pub fn response_path(&self, client_id: &str, grpc_path: &str) -> (r: String)
        ensures
            r@ == spec_join(opt_prefix_view(self.response_prefix), client_id@, grpc_path@),
    {
        join_path(self.response_prefix.as_ref(), client_id, grpc_path)
    }
}

/// The unit of admission control: one client on one call.
#[derive(Debug)]
pub struct SessionKey {
    pub client_id: String,
    pub grpc_path: String,
}

impl View for SessionKey {
    type V = (Seq<char>, Seq<char>);

    open spec fn view(&self) -> (Seq<char>, Seq<char>) {
        (self.client_id@, self.grpc_path@)
    }
}

impl SessionKey {
    pub fn new(client_id: &str, grpc_path: &str) -> (r: Self)
        ensures
            r@ == (client_id@, grpc_path@),
    {
        SessionKey {
            client_id: String::from_str(client_id),
            grpc_path: String::from_str(grpc_path),
        }
    }
}

impl Clone for SessionKey {
    fn clone(&self) -> (r: Self)
        ensures
            r == *self,
    {
        SessionKey { client_id: self.client_id.clone(), grpc_path: self.grpc_path.clone() }
    }
}

impl PartialEq for SessionKey {
    fn eq(&self, other: &Self) -> (r: bool) {
        self.client_id == other.client_id && self.grpc_path == other.grpc_path
    }
}

impl Eq for SessionKey {}

impl vstd::std_specs::cmp::PartialEqSpecImpl for SessionKey {
    open spec fn obeys_eq_spec() -> bool {
        true
    }

    open spec fn eq_spec(&self, other: &Self) -> bool {
        self@ == other@
    }
}

/// Indicates that no session was active for the given key.
#[derive(Debug)]
pub struct SessionNotFound {
    pub client_id: String,
    pub grpc_path: String,
}

/// Admission control for bridged sessions: at most one active session exists
/// per [`SessionKey`] at any instant. [`try_create`](SessionMap::try_create)
/// is an atomic test-and-insert; the returned [`SessionGuard`] releases the
/// slot when handed back.
pub struct SessionMap {
    active: Vec<SessionKey>,
}

impl SessionMap {
    /// Number of active sessions.
    pub closed spec fn num_active(self) -> int {
        self.active@.len() as int
    }

    /// The key of the session at position `i`.
    pub closed spec fn key_at(self, i: int) -> (Seq<char>, Seq<char>) {
        self.active@[i]@
    }

    /// Whether a session is active for the key `k`.
    pub open spec fn contains_key(self, k: (Seq<char>, Seq<char>)) -> bool {
        exists|i: int| 0 <= i < self.num_active() && #[trigger] self.key_at(i) == k
    }

    /// At most one active session exists per key.
    pub open spec fn wf(self) -> bool {
        forall|i: int, j: int|
            0 <= i < self.num_active() && 0 <= j < self.num_active() && i != j
                ==> #[trigger] self.key_at(i) != #[trigger] self.key_at(j)
    }

    pub fn new() -> (r: Self)
        ensures
            r.wf(),
            r.num_active() == 0,
            forall|k: (Seq<char>, Seq<char>)| !(#[trigger] r.contains_key(k)),
    {
        SessionMap { active: Vec::new() }
    }

    /// Find the position of the active session for the given key, if any.
    fn find(&self, key: &SessionKey) -> (r: Option<usize>)
        ensures
            r matches Some(i) ==> 0 <= i < self.num_active() && self.key_at(i as int) == key@,
            r is None ==> !self.contains_key(key@),
    {
        let n = self.active.len();
        let mut i: usize = 0;
        while i < n
            invariant
                n == self.num_active(),
                0 <= i <= n,
                forall|j: int| 0 <= j < i ==> #[trigger] self.key_at(j) != key@,
            decreases n - i,
        {
            if self.active[i] == *key {
                return Some(i);
            }
            i = i + 1;
        }
        None
    }

    /// Atomically test-and-insert a session for the key: fails without any
    /// change if a session is already active, otherwise reserves the key and
    /// returns a guard that releases it.
    pub fn try_create(&mut self, key: SessionKey) -> (res: Result<SessionGuard, RpcError>)
        requires
            old(self).wf(),
        ensures
            final(self).wf(),
            res is Ok <==> !old(self).contains_key(key@),
            res is Err ==> *final(self) == *old(self),
            res matches Err(e) ==> (e matches RpcError::SessionAlreadyActive {
                client_id,
                grpc_path,
            } && client_id@ == key@.0 && grpc_path@ == key@.1),
            res matches Ok(g) ==> {
                &&& g.key() == key@
                &&& final(self).num_active() == old(self).num_active() + 1
                &&& final(self).contains_key(key@)
                &&& forall|k: (Seq<char>, Seq<char>)|
                    k != key@ ==> (#[trigger] final(self).contains_key(k) <==> old(self).contains_key(k))
            },
    {
        match self.find(&key) {
            Some(_) => Err(
                RpcError::SessionAlreadyActive {
                    client_id: key.client_id,
                    grpc_path: key.grpc_path,
                },
            ),
            None => {
                let guard_key = key.clone();
                self.active.push(key);
                proof {
                    let n0 = old(self).num_active();
                    assert forall|k: int| 0 <= k < n0 implies self.active@[k] == old(self).active@[k] by {}
                    assert(self.key_at(n0) == guard_key@);
                    assert forall|i: int, j: int|
                        0 <= i < self.num_active() && 0 <= j < self.num_active() && i
                            != j implies #[trigger] self.key_at(i) != #[trigger] self.key_at(
                        j,
                    ) by {
                        if i < n0 && j < n0 {
                            assert(old(self).key_at(i) != old(self).key_at(j));
                            assert(self.key_at(i) == old(self).key_at(i));
                            assert(self.key_at(j) == old(self).key_at(j));
                        } else if i < n0 && j == n0 {
                            assert(self.key_at(i) == old(self).key_at(i));
                            assert(old(self).key_at(i) != guard_key@);
                        } else if j < n0 && i == n0 {
                            assert(self.key_at(j) == old(self).key_at(j));
                            assert(old(self).key_at(j) != guard_key@);
                        }
                    }
                    assert forall|k: (Seq<char>, Seq<char>)|
                        k != guard_key@ implies (#[trigger] self.contains_key(k) <==> old(self).contains_key(k)) by {
                        if old(self).contains_key(k) {
                            let m = choose|m: int|
                                0 <= m < n0 && #[trigger] old(self).key_at(m) == k;
                            assert(self.key_at(m) == k);
                        }
                        if self.contains_key(k) {
                            let m = choose|m: int|
                                0 <= m < self.num_active() && #[trigger] self.key_at(m) == k;
                            assert(m != n0);
                            assert(old(self).key_at(m) == k);
                        }
                    }
                }
                Ok(SessionGuard { key: guard_key })
            },
        }
    }

    /// Remove the active session for the key, returning it; fails without
    /// any change if none is active.
    pub fn remove(&mut self, key: &SessionKey) -> (res: Result<SessionKey, SessionNotFound>)
        requires
            old(self).wf(),
        ensures
            final(self).wf(),
            res is Ok <==> old(self).contains_key(key@),
            res is Err ==> *final(self) == *old(self),
            res matches Err(e) ==> e.client_id@ == key@.0 && e.grpc_path@ == key@.1,
            res matches Ok(s) ==> {
                &&& s@ == key@
                &&& final(self).num_active() == old(self).num_active() - 1
                &&& !final(self).contains_key(key@)
                &&& forall|k: (Seq<char>, Seq<char>)|
                    k != key@ ==> (#[trigger] final(self).contains_key(k) <==> old(self).contains_key(k))
            },
    {
        match self.find(key) {
            Some(i) => {
                let removed = self.active.remove(i);
                proof {
                    assert forall|k: int| 0 <= k < self.num_active() implies #[trigger] self.active@[k]
                        == (if k < i { old(self).active@[k] } else {
                            old(self).active@[k + 1]
                        }) by {}
                    assert forall|a: int, b: int|
                        0 <= a < self.num_active() && 0 <= b < self.num_active() && a
                            != b implies #[trigger] self.key_at(a) != #[trigger] self.key_at(
                        b,
                    ) by {
                        let a0 = if a < i { a } else { a + 1 };
                        let b0 = if b < i { b } else { b + 1 };
                        assert(self.key_at(a) == old(self).key_at(a0));
                        assert(self.key_at(b) == old(self).key_at(b0));
                        assert(old(self).key_at(a0) != old(self).key_at(b0));
                    }
                    assert forall|k: (Seq<char>, Seq<char>)|
                        k != key@ implies (#[trigger] self.contains_key(k) <==> old(self).contains_key(k)) by {
                        if old(self).contains_key(k) {
                            let m = choose|m: int|
                                0 <= m < old(self).num_active() && #[trigger] old(self).key_at(m)
                                    == k;
                            assert(m != i);
                            let m1 = if m < i { m } else { m - 1 };
                            assert(self.key_at(m1) == old(self).key_at(m));
                            assert(self.contains_key(k));
                        }
                        if self.contains_key(k) {
                            let m = choose|m: int|
                                0 <= m < self.num_active() && #[trigger] self.key_at(m) == k;
                            let m0 = if m < i { m } else { m + 1 };
                            assert(old(self).key_at(m0) == k);
                            assert(old(self).contains_key(k));
                        }
                    }
                    assert forall|m: int| 0 <= m < self.num_active() implies #[trigger] self.key_at(
                        m,
                    ) != key@ by {
                        let m0 = if m < i { m } else { m + 1 };
                        assert(self.key_at(m) == old(self).key_at(m0));
                        if m0 != i {
                            assert(old(self).key_at(m0) != old(self).key_at(i as int));
                        }
                    }
                }
                Ok(removed)
            },
            None => Err(
                SessionNotFound {
                    client_id: key.client_id.clone(),
                    grpc_path: key.grpc_path.clone(),
                },
            ),
        }
    }

    /// Whether a session is currently active for the key.
    pub fn has_active(&self, key: &SessionKey) -> (r: bool)
        ensures
            r == self.contains_key(key@),
    {
        match self.find(key) {
            Some(i) => {
                proof {
                    assert(self.contains_key(key@));
                }
                true
            },
            None => false,
        }
    }

    /// Number of active sessions.
    pub fn count(&self) -> (r: usize)
        ensures
            r == self.num_active(),
    {
        self.active.len()
    }
}

/// The relation `try_create`'s contract establishes between its initial and
/// final states when it hands out a guard for `k`.
pub open spec fn admit_transition(s0: SessionMap, s1: SessionMap, k: (Seq<char>, Seq<char>)) -> bool {
    &&& !s0.contains_key(k)
    &&& s1.contains_key(k)
    &&& s1.num_active() == s0.num_active() + 1
    &&& forall|k2: (Seq<char>, Seq<char>)|
        k2 != k ==> (#[trigger] s1.contains_key(k2) <==> s0.contains_key(k2))
}

/// The relation `release`'s contract establishes between its initial and
/// final states for a guard holding `k`.
pub open spec fn release_transition(s1: SessionMap, s2: SessionMap, k: (Seq<char>, Seq<char>)) -> bool {
    &&& !s2.contains_key(k)
    &&& forall|k2: (Seq<char>, Seq<char>)|
        k2 != k ==> (#[trigger] s2.contains_key(k2) <==> s1.contains_key(k2))
}

/// Law: admission is exclusive per key. After `try_create(k)` succeeds, and
/// until the guard is handed back, `k` stays reserved, so a second
/// `try_create(k)` must fail with `SessionAlreadyActive` — its contract
/// returns a guard exactly when `k` is absent. Once the guard's `release`
/// has run, `k` is free again, so `try_create(k)` must succeed. Keys other
/// than `k` are not disturbed by either step.
pub proof fn lemma_admission_exclusive(
    s0: SessionMap,
    s1: SessionMap,
    s2: SessionMap,
    k: (Seq<char>, Seq<char>),
)
    requires
        admit_transition(s0, s1, k),
        release_transition(s1, s2, k),
    ensures
        s1.contains_key(k),
        !s2.contains_key(k),
        forall|k2: (Seq<char>, Seq<char>)|
            k2 != k ==> (#[trigger] s2.contains_key(k2) <==> s0.contains_key(k2)),
{
}

/// An owned token reserving one [`SessionKey`]. While the guard is held, the
/// key stays reserved; handing the guard back to
/// [`release`](Self::release) frees the slot. Every exit path of a bridging
/// task, graceful or not, must release its guard so sessions never leak.
#[derive(Debug)]
pub struct SessionGuard {
    key: SessionKey,
}

impl SessionGuard {
    /// The key this guard reserves.
    pub closed spec fn key(self) -> (Seq<char>, Seq<char>) {
        self.key@
    }

    /// The reserved key, for tasks that need to consult it.
    pub fn session_key(&self) -> (r: &SessionKey)
        ensures
            r@ == self.key(),
    {
        &self.key
    }

    /// Release the reserved key: after this call no session is active for it.
    pub fn release(self, sessions: &mut SessionMap)
        requires
            old(sessions).wf(),
        ensures
            final(sessions).wf(),
            !final(sessions).contains_key(self.key()),
            forall|k: (Seq<char>, Seq<char>)|
                k != self.key() ==> (#[trigger] final(sessions).contains_key(k) <==> old(sessions).contains_key(k)),
            old(sessions).contains_key(self.key()) ==> final(sessions).num_active() == old(sessions).num_active() - 1,
            !old(sessions).contains_key(self.key()) ==> *final(sessions) == *old(sessions),
    {
        let _ = sessions.remove(&self.key);
    }
}

/// The admission decision for one accepted announcement: the parsed identity
/// of the caller, the response channel name to create, and the guard that
/// must be released when the bridging task for this connection terminates.
#[derive(Debug)]
pub struct AdmittedConnection {
    pub client_id: String,
    pub grpc_path: String,
    pub response_path: String,
    pub guard: SessionGuard,
}

/// The main RPC router: decides, for each client announcement, whether a
/// bridged connection is admitted, and tracks registered handler names and
/// active sessions. The transport work around each decision (creating the
/// response broadcast, pumping frames, running the handler) happens outside
/// the library.
pub struct RpcRouter {
    config: RpcRouterConfig,
    handlers: Vec<String>,
    sessions: SessionMap,
}

impl RpcRouter {
    /// The router's configuration.
    pub closed spec fn spec_config(self) -> RpcRouterConfig {
        self.config
    }

    /// The registered handler names.
    pub closed spec fn handler_list(self) -> Seq<String> {
        self.handlers@
    }

    /// The session admission state.
    pub closed spec fn spec_sessions(self) -> SessionMap {
        self.sessions
    }

    /// Whether a handler is registered for the call name `call`.
    pub open spec fn handles(self, call: Seq<char>) -> bool {
        exists|i: int| 0 <= i < self.handler_list().len() && #[trigger] self.handler_list()[i]@ == call
    }

    /// The session admission state is well-formed.
    pub open spec fn wf(self) -> bool {
        self.spec_sessions().wf()
    }

    /// Create a new RPC router.
    pub fn new(config: RpcRouterConfig) -> (r: Self)
        ensures
            r.wf(),
            r.spec_config() == config,
            forall|call: Seq<char>| !(#[trigger] r.handles(call)),
            r.spec_sessions().num_active() == 0,
            forall|k: (Seq<char>, Seq<char>)| !(#[trigger] r.spec_sessions().contains_key(k)),
    {
        RpcRouter { config, handlers: Vec::new(), sessions: SessionMap::new() }
    }

    /// Register a handler name for a call. Registering the same call twice
    /// leaves the registration in place: the last registration wins, and the
    /// set of handled calls is unchanged.
    pub fn register(&mut self, grpc_path: String) -> (res: Result<(), RpcError>)
        ensures
            res is Ok,
            final(self).wf() == old(self).wf(),
            final(self).spec_config() == old(self).spec_config(),
            final(self).spec_sessions() == old(self).spec_sessions(),
            final(self).handles(grpc_path@),
            forall|call: Seq<char>|
                call != grpc_path@ ==> (#[trigger] final(self).handles(call) <==> old(self).handles(
                    call,
                )),
    {
        if self.has_handler(grpc_path.as_str()) {
            return Ok(());
        }
        self.handlers.push(grpc_path);
        proof {
            let n0 = old(self).handler_list().len();
            assert forall|k: int| 0 <= k < n0 implies self.handlers@[k] == old(self).handlers@[k] by {}
            assert(self.handler_list()[n0 as int]@ == grpc_path@);
            assert(self.handles(grpc_path@));
            assert forall|call: Seq<char>|
                call != grpc_path@ implies (#[trigger] self.handles(call) <==> old(self).handles(
                call,
            )) by {
                if old(self).handles(call) {
                    let m = choose|m: int|
                        0 <= m < n0 && #[trigger] old(self).handler_list()[m]@ == call;
                    assert(self.handler_list()[m]@ == call);
                }
                if self.handles(call) {
                    let m = choose|m: int|
                        0 <= m < self.handler_list().len() && #[trigger] self.handler_list()[m]@
                            == call;
                    assert(m != n0);
                    assert(old(self).handler_list()[m]@ == call);
                }
            }
        }
        Ok(())
    }

    /// Check if a handler is registered for the given call name.
    pub fn has_handler(&self, grpc_path: &str) -> (r: bool)
        ensures
            r == self.handles(grpc_path@),
    {
        let n = self.handlers.len();
        let mut i: usize = 0;
        while i < n
            invariant
                n == self.handler_list().len(),
                0 <= i <= n,
                forall|j: int| 0 <= j < i ==> #[trigger] self.handler_list()[j]@ != grpc_path@,
            decreases n - i,
        {
            if str_eq(self.handlers[i].as_str(), grpc_path) {
                proof {
                    assert(self.handler_list()[i as int]@ == grpc_path@);
                }
                return true;
            }
            i = i + 1;
        }
        false
    }

    /// Hand a bridging task's guard back when the task terminates, on any
    /// path: the session it reserved is no longer active afterwards.
    pub fn release_session(&mut self, guard: SessionGuard)
        requires
            old(self).wf(),
        ensures
            final(self).wf(),
            final(self).spec_config() == old(self).spec_config(),
            final(self).handler_list() == old(self).handler_list(),
            !final(self).spec_sessions().contains_key(guard.key()),
            forall|k: (Seq<char>, Seq<char>)|
                k != guard.key() ==> (#[trigger] final(self).spec_sessions().contains_key(k)
                    <==> old(self).spec_sessions().contains_key(k)),
    {
        guard.release(&mut self.sessions);
    }

    /// Get the number of active sessions.
    pub fn active_sessions(&self) -> (r: usize)
        ensures
            r == self.spec_sessions().num_active(),
    {
        self.sessions.count()
    }
}

/// The components that a parsable announcement splits into under the given
/// prefix. Splitting is unique, so this names the one client identifier and
/// call name of the announcement.
pub open spec fn parsed(gp: Option<Seq<char>>, path: Seq<char>) -> (Seq<char>, Seq<char>) {
    choose|cid: Seq<char>, call: Seq<char>| #[trigger] splits_as(rest_of(gp, path), cid, call)
}

impl RpcRouter {
    /// The prefix the router listens under.
    pub open spec fn listen_prefix(self) -> Option<Seq<char>> {
        opt_prefix_view(self.spec_config().client_prefix)
    }

    /// Handle one client announcement carrying a live channel.
    ///
    /// Parses the announced path, resolves the registered handler and
    /// reserves the session slot, atomically against the session map. On
    /// success the caller creates the response broadcast at the returned
    /// path and spawns the bridging task holding the returned guard; every
    /// failure leaves the router unchanged and names its reason: a malformed
    /// path, an unregistered call, or a session already active for the same
    /// client and call.
    pub fn handle_announcement(&mut self, path: &str) -> (res: Result<AdmittedConnection, RpcError>)
        requires
            old(self).wf(),
        ensures
            final(self).wf(),
            final(self).spec_config() == old(self).spec_config(),
            final(self).handler_list() == old(self).handler_list(),
            res is Err ==> final(self).spec_sessions() == old(self).spec_sessions(),
            !parsable(old(self).listen_prefix(), path@) ==> (res matches Err(e) && e is PathParse),
            res is Ok <==> (parsable(old(self).listen_prefix(), path@) && old(self).handles(
                parsed(old(self).listen_prefix(), path@).1,
            ) && !old(self).spec_sessions().contains_key(parsed(old(self).listen_prefix(), path@))),
            parsable(old(self).listen_prefix(), path@) && !old(self).handles(
                parsed(old(self).listen_prefix(), path@).1,
            ) ==> (res matches Err(e) && e matches RpcError::NoHandler(s) && s@ == parsed(
                old(self).listen_prefix(),
                path@,
            ).1),
            parsable(old(self).listen_prefix(), path@) && old(self).handles(
                parsed(old(self).listen_prefix(), path@).1,
            ) && old(self).spec_sessions().contains_key(parsed(old(self).listen_prefix(), path@))
                ==> (res matches Err(e) && e matches RpcError::SessionAlreadyActive {
                client_id,
                grpc_path,
            } && client_id@ == parsed(old(self).listen_prefix(), path@).0 && grpc_path@ == parsed(
                old(self).listen_prefix(),
                path@,
            ).1),
            res matches Ok(adm) ==> {
                &&& adm.client_id@ == parsed(old(self).listen_prefix(), path@).0
                &&& adm.grpc_path@ == parsed(old(self).listen_prefix(), path@).1
                &&& adm.response_path@ == spec_join(
                    opt_prefix_view(old(self).spec_config().response_prefix),
                    parsed(old(self).listen_prefix(), path@).0,
                    parsed(old(self).listen_prefix(), path@).1,
                )
                &&& adm.guard.key() == parsed(old(self).listen_prefix(), path@)
                &&& final(self).spec_sessions().contains_key(parsed(old(self).listen_prefix(), path@))
                &&& final(self).spec_sessions().num_active() == old(self).spec_sessions().num_active() + 1
                &&& forall|k: (Seq<char>, Seq<char>)|
                    k != parsed(old(self).listen_prefix(), path@) ==> (#[trigger] final(self).spec_sessions().contains_key(k) <==> old(self).spec_sessions().contains_key(
                        k,
                    ))
            },
    {
        let ghost gp = self.listen_prefix();
        let prefix: Option<&str> = match &self.config.client_prefix {
            Some(p) => Some(p.as_str()),
            None => None,
        };
        let request_path = match RpcRequestPath::parse(prefix, path) {
            Ok(rp) => rp,
            Err(e) => {
                return Err(e);
            },
        };
        proof {
            lemma_split_unique(
                rest_of(gp, path@),
                request_path.client_id@,
                request_path.grpc_path@,
                parsed(gp, path@).0,
                parsed(gp, path@).1,
            );
        }
        let grpc_path = request_path.grpc_path.full_path();
        if !self.has_handler(grpc_path.as_str()) {
            return Err(RpcError::NoHandler(grpc_path));
        }
        let key = SessionKey::new(request_path.client_id.as_str(), grpc_path.as_str());
        let guard = match self.sessions.try_create(key) {
            Ok(g) => g,
            Err(e) => {
                return Err(e);
            },
        };
        let response_path = self.config.response_path(
            request_path.client_id.as_str(),
            grpc_path.as_str(),
        );
        Ok(
            AdmittedConnection {
                client_id: request_path.client_id,
                grpc_path,
                response_path,
                guard,
            },
        )
    }
}

} // verus!
