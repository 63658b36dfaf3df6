//! Where chance enters the game.

use vstd::prelude::*;

verus! {

/// Calls `rand::random` for a `u32`. Nothing is promised of the number.
#[verifier::external_body]
pub(crate) fn random_u32() -> (n: u32) {
    rand::random::<u32>()
}

} // verus!
