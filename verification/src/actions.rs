//! What the player asks for at one moment.

use vstd::prelude::*;

verus! {

/// Something the player does at once, by a key or a button.
#[derive(Clone, Copy, Debug, PartialEq, Eq, Hash, Structural)]
pub enum BurstActions {
    /// Punch whoever stands in front.
    Punch,
    /// Swallow the pill in the slot `index` of the inventory.
    ConsumePill { index: usize },
}

} // verus!
