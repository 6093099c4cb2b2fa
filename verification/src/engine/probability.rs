use vstd::prelude::*;

use crate::engine::ev::spec_tier_flat_multiplier;
use crate::models::RuneTier;

verus! {

/// Multiplier that a rune's tier applies to its success probability, in
/// hundredths (Ba 1.0, Pa 0.95, Ra 0.85).
pub open spec fn spec_tier_success_modifier(tier: RuneTier) -> nat {
    match tier {
        RuneTier::Ba => 100,
        RuneTier::Pa => 95,
        RuneTier::Ra => 85,
    }
}

/// Tier multiplier for the base success rate, in hundredths: heavier runes
/// are harder to land successfully.
pub fn tier_success_modifier(tier: &RuneTier) -> (m: u32)
    ensures
        m == spec_tier_success_modifier(*tier),
{
    match tier {
        RuneTier::Ba => 100,
        RuneTier::Pa => 95,
        RuneTier::Ra => 85,
    }
}

/// A heavier tier (one that multiplies the flat value more) always has a
/// lower success multiplier.
pub proof fn lemma_heavier_tiers_land_less_often(a: RuneTier, b: RuneTier)
    requires
        spec_tier_flat_multiplier(a) < spec_tier_flat_multiplier(b),
    ensures
        spec_tier_success_modifier(a) > spec_tier_success_modifier(b),
{
}

} // verus!
