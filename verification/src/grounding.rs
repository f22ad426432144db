//! Deciding whether the character stands on ground.

use vstd::prelude::*;

verus! {

/// The character counts as grounded exactly when the downward shape
/// cast reported at least one supporting hit.
pub open spec fn grounded_spec(hits: nat) -> bool {
    hits > 0
}

/// Decides the grounded state from the number of hits the downward
/// shape cast returned this tick. There is no hysteresis: the state
/// follows the latest cast alone.
pub fn grounded_after_cast(hit_count: usize) -> (g: bool)
    ensures
        g == grounded_spec(hit_count as nat),
{
    hit_count > 0
}

} // verus!
