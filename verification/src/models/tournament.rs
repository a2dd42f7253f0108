//! What the policies read of a tournament.
use vstd::prelude::*;

verus! {

/// A tournament, as far as access decisions go: its id and the user who owns it (ids as
/// 128-bit integers).
#[derive(Debug, Clone, Copy)]
pub struct Tournament {
    pub tid: u128,
    pub owner_id: u128,
}

} // verus!
