use vstd::prelude::*;

use crate::models::RuneTier;

verus! {

/// Factor by which a rune's tier scales its flat value: Pa runes apply 3
/// times the flat value, Ra runes 10 times.
pub open spec fn spec_tier_flat_multiplier(tier: RuneTier) -> nat {
    match tier {
        RuneTier::Ba => 1,
        RuneTier::Pa => 3,
        RuneTier::Ra => 10,
    }
}

/// Tier weight multiplier for expected-value scaling.
pub fn tier_flat_multiplier(tier: &RuneTier) -> (m: u32)
    ensures
        m == spec_tier_flat_multiplier(*tier),
{
    match tier {
        RuneTier::Ba => 1,
        RuneTier::Pa => 3,
        RuneTier::Ra => 10,
    }
}

} // verus!
