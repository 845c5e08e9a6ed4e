//! Bridging bidirectional streaming calls onto a publish/subscribe transport.
//!
//! The library derives correlated channel names from a logical call identity,
//! admits at most one concurrent session per (client, call) pair, shares
//! per-entity mutable state through non-owning references that can never
//! outlive the entity's removal, and models business state transitions as
//! deterministic state machines.

use vstd::prelude::*;

pub mod bridge;
pub mod drone;
pub mod rpcmoq_lite;
pub mod state_machine;
pub mod unit;
pub mod unit_context;
pub mod unit_map;

use vstd::string::StringExecFns;

verus! {

/// Track name that carries a drone's position frames.
pub const POSITION_TRACK: &'static str = "position";

/// Track name that carries inbound command frames.
pub const COMMAND_TRACK: &'static str = "commands";

/// Broadcast path for a drone's outbound telemetry.
/// Published by the drone, subscribed to by the controller.
pub fn drone_broadcast_path(drone_id: &str) -> (r: String)
    ensures
        r@ == "drone/"@ + drone_id@,
{
    let mut path = String::from_str("drone/");
    path.append(drone_id);
    path
}

/// Broadcast path for inbound commands to a drone.
/// Published by the controller, subscribed to by the drone.
pub fn control_broadcast_path(drone_id: &str) -> (r: String)
    ensures
        r@ == "control/"@ + drone_id@,
{
    let mut path = String::from_str("control/");
    path.append(drone_id);
    path
}

} // verus!
