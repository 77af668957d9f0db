//! The inventory window's verified state.
//!
//! The widget tree, layout and input handling around the window belong to
//! the unverified embedding; what the window itself owns is which entity's
//! inventory it inspects, and that is plain state worth a contract.

use vstd::prelude::*;
use crate::script::EntityInfo;

verus! {

/// A window inspecting one entity's inventory.
#[derive(Clone, Copy, PartialEq, Eq, Structural, Debug)]
pub struct InventoryWindow {
    /// The entity whose inventory is shown.
    pub entity: EntityInfo,
}

impl InventoryWindow {
    /// A window bound to the given entity.
    pub fn new(entity: &EntityInfo) -> (r: InventoryWindow)
        ensures
            r.entity == *entity,
    {
        InventoryWindow { entity: *entity }
    }
}

} // verus!
