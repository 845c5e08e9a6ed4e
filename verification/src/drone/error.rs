//! Error types for drone session management.

use vstd::prelude::*;

use crate::unit::UnitId;

verus! {

/// Indicates that a drone session could not be created because one already
/// exists.
#[derive(Debug)]
pub struct SessionAlreadyActive {
    pub unit_id: UnitId,
}

/// Indicates that a drone session could not be found for removal or query.
#[derive(Debug)]
pub struct SessionNotFound {
    pub unit_id: UnitId,
}

} // verus!
