//! Bridging bidirectional streaming calls over a publish/subscribe broadcast
//! transport.
//!
//! The server-side [`RpcRouter`](server::RpcRouter) decides, for each client
//! announcement under a configured prefix, whether to admit a bridged
//! connection: it parses the announced path, resolves the registered handler
//! and reserves the session slot. The client side computes the paired
//! request/response paths for a call and classifies discovery announcements.
//! The surrounding transport work (creating broadcasts, reading and writing
//! frames) happens outside this library and hands plain values in.
//!
//! ## Path Format
//!
//! With prefixes configured:
//! - the client announces at `{client_prefix}/{client_id}/{call_name}`,
//! - the server responds at `{server_prefix}/{client_id}/{call_name}`;
//!
//! without prefixes both sides use `{client_id}/{call_name}`. The call name
//! has the form `{namespace}.{Service}/{Method}` and may itself contain `/`.

pub mod client;
pub mod error;
pub mod path;
pub mod server;

pub use client::{RpcClient, RpcClientConfig};
pub use error::RpcError;
pub use path::{GrpcPath, RpcRequestPath};
pub use server::{RpcRouter, RpcRouterConfig, SessionGuard, SessionKey, SessionMap};
