//! Client-side types: configuration, path derivation and the response
//! discovery decision.

use vstd::prelude::*;
use vstd::string::StringExecFns;

use super::error::RpcError;
use super::path::{join_path, spec_join};

verus! {

/// Configuration for the RPC client.
#[derive(Debug)]
pub struct RpcClientConfig {
    /// Unique client identifier.
    pub client_id: String,
    /// Optional prefix for client broadcasts (e.g., "client").
    /// If set, request channels are created at
    /// `{client_prefix}/{client_id}/{call_name}`; if not set, at
    /// `{client_id}/{call_name}`.
    pub client_prefix: Option<String>,
    /// Optional prefix for server responses (e.g., "server").
    /// If set, the client subscribes to responses at
    /// `{server_prefix}/{client_id}/{call_name}`; if not set, at
    /// `{client_id}/{call_name}`.
    pub server_prefix: Option<String>,
    /// Track name for RPC messages (e.g., "primary").
    pub track_name: String,
    /// Timeout in milliseconds for waiting for the server response broadcast.
    pub timeout_ms: u64,
}

/// The view of an optional prefix string.
pub open spec fn opt_prefix_view(prefix: Option<String>) -> Option<Seq<char>> {
    match prefix {
        Some(p) => Some(p@),
        None => None,
    }
}

impl RpcClientConfig {
    /// A configuration with the default track name and discovery timeout.
    pub fn new(client_id: String, client_prefix: Option<String>, server_prefix: Option<String>) -> (r:
        Self)
        ensures
            r.client_id@ == client_id@,
            r.client_prefix == client_prefix,
            r.server_prefix == server_prefix,
            r.track_name@ == "primary"@,
            r.timeout_ms == 30000,
    {
        RpcClientConfig {
            client_id,
            client_prefix,
            server_prefix,
            track_name: String::from_str("primary"),
            timeout_ms: 30000,
        }
    }

    /// Build the client broadcast path for a given call name.
    pub fn client_path(&self, grpc_path: &str) -> (r: String)
        ensures
            r@ == spec_join(opt_prefix_view(self.client_prefix), self.client_id@, grpc_path@),
    {
        join_path(self.client_prefix.as_ref(), self.client_id.as_str(), grpc_path)
    }

    /// Build the expected server response path for a given call name.
    pub fn server_path(&self, grpc_path: &str) -> (r: String)
        ensures
            r@ == spec_join(opt_prefix_view(self.server_prefix), self.client_id@, grpc_path@),
    {
        join_path(self.server_prefix.as_ref(), self.client_id.as_str(), grpc_path)
    }
}

/// One transport announcement as seen by the discovery loop: a path appeared
/// carrying a live channel, a path departed, or the announcement stream
/// ended.
pub enum DiscoveryEvent {
    Appeared(String),
    Departed(String),
    Closed,
}

/// The decision taken for one announcement while waiting for the server's
/// response channel.
pub enum DiscoveryStep {
    /// The expected response path appeared with a live channel: connect.
    Connected,
    /// Discovery failed; the error is terminal for this connect attempt.
    Rejected(RpcError),
    /// The announcement does not concern the expected path: keep waiting.
    KeepWaiting,
}

/// An RPC client: holds the configuration from which request and response
/// paths are derived. The transport session that carries the derived
/// channels lives outside the library and consumes the decisions made here.
pub struct RpcClient {
    config: RpcClientConfig,
}

impl RpcClient {
    /// The client's configuration.
    pub closed spec fn cfg(self) -> RpcClientConfig {
        self.config
    }

    /// Create a new RPC client.
    pub fn new(config: RpcClientConfig) -> (r: Self)
        ensures
            r.cfg() == config,
    {
        RpcClient { config }
    }

    /// Get the client ID.
    pub fn client_id(&self) -> (r: &str)
        ensures
            r@ == self.cfg().client_id@,
    {
        self.config.client_id.as_str()
    }

    /// Get the client configuration.
    pub fn config(&self) -> (r: &RpcClientConfig)
        ensures
            *r == self.cfg(),
    {
        &self.config
    }

    /// The pair of channel names for one call: where requests are published
    /// and where the response announcement is expected.
    pub fn connect_paths(&self, grpc_path: &str) -> (r: (String, String))
        ensures
            r.0@ == spec_join(
                opt_prefix_view(self.cfg().client_prefix),
                self.cfg().client_id@,
                grpc_path@,
            ),
            r.1@ == spec_join(
                opt_prefix_view(self.cfg().server_prefix),
                self.cfg().client_id@,
                grpc_path@,
            ),
    {
        (self.config.client_path(grpc_path), self.config.server_path(grpc_path))
    }
}

/// Classify one announcement while waiting for the server response broadcast
/// at `server_path`.
///
/// An appearance of the expected path connects; a departure announcement at
/// the expected path means the server is gone; the end of the announcement
/// stream means the connection closed; anything else is ignored. The
/// discovery timeout is enforced by the caller around the whole wait.
pub fn discovery_step(server_path: &str, event: DiscoveryEvent) -> (r: DiscoveryStep)
    ensures
        match event {
            DiscoveryEvent::Appeared(p) => {
                &&& p@ == server_path@ ==> r is Connected
                &&& p@ != server_path@ ==> r is KeepWaiting
            },
            DiscoveryEvent::Departed(p) => {
                &&& p@ == server_path@ ==> (r matches DiscoveryStep::Rejected(e)
                    && e matches RpcError::ServerNotFound(s) && s@ == server_path@)
                &&& p@ != server_path@ ==> r is KeepWaiting
            },
            DiscoveryEvent::Closed => r matches DiscoveryStep::Rejected(e)
                && e is ConnectionClosed,
        },
{
    match event {
        DiscoveryEvent::Appeared(p) => {
            if super::path::str_eq(p.as_str(), server_path) {
                DiscoveryStep::Connected
            } else {
                DiscoveryStep::KeepWaiting
            }
        },
        DiscoveryEvent::Departed(p) => {
            if super::path::str_eq(p.as_str(), server_path) {
                DiscoveryStep::Rejected(RpcError::ServerNotFound(String::from_str(server_path)))
            } else {
                DiscoveryStep::KeepWaiting
            }
        },
        DiscoveryEvent::Closed => DiscoveryStep::Rejected(RpcError::ConnectionClosed),
    }
}

} // verus!
