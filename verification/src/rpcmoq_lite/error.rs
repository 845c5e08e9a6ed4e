use vstd::prelude::*;

verus! {

/// Errors that can occur in the RPC-over-broadcast bridging layer.
#[derive(Debug)]
pub enum RpcError {
    /// Failed to parse an RPC request path; carries the offending path.
    PathParse(String),
    /// A session already exists for this client and RPC path.
    SessionAlreadyActive { client_id: String, grpc_path: String },
    /// Failed to create a broadcast for a request or response channel.
    BroadcastCreate(String),
    /// No handler registered for the given RPC path.
    NoHandler(String),
    /// Timeout waiting for the server response broadcast.
    Timeout,
    /// Server broadcast found only as a departure at the expected path.
    ServerNotFound(String),
    /// The RPC connection was closed before discovery completed.
    ConnectionClosed,
    /// Authorization failed for the requested operation.
    Unauthorized(String),
    /// A handler failed during execution.
    HandlerPanic,
}

} // verus!
