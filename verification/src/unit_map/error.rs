use vstd::prelude::*;

use crate::unit::UnitId;

verus! {

/// Indicates that an operation to create a unit failed because one already exists.
#[derive(Debug)]
pub struct UnitAlreadyPresent {
    pub unit_id: UnitId,
}

/// Indicates that an operation to retrieve a unit failed because it doesn't exist.
#[derive(Debug)]
pub struct UnitNotFound {
    pub unit_id: UnitId,
}

/// Indicates that an operation to view a weakly held unit context failed because
/// the owner of the context has destroyed it.
#[derive(Debug)]
pub struct UnitViewInvalid {
    pub unit_id: UnitId,
}

} // verus!
