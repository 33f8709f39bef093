use vstd::prelude::*;

verus! {

/// The static tier-to-LTV table: tier 2 allows 70%, tier 3 allows 85%, and
/// every other tier (including any above 3) maps to 0% rather than an error.
pub open spec fn spec_ltv_for_tier(tier: u8) -> u8 {
    if tier == 2 {
        70
    } else if tier == 3 {
        85
    } else {
        0
    }
}

/// Maps a tier to its maximum loan-to-value percentage.
pub fn get_ltv_for_tier(tier: u8) -> (ltv: u8)
    ensures
        ltv == spec_ltv_for_tier(tier),
{
    match tier {
        1 => 0,
        2 => 70,
        3 => 85,
        _ => 0,
    }
}

} // verus!
