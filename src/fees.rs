use vstd::prelude::*;

verus! {

/// Fee charged on a fill, in percent of the filled quantity.
pub const FEE_PERCENTAGE: u64 = 1;

/// Staked amount from which the fee discount applies.
pub const DISCOUNT_THRESHOLD: u64 = 1000;

/// Percentage of the base fee that a discounted filler pays.
pub const VIP_DISCOUNT_MULTIPLIER: u64 = 50;

/// Filled units per reward token.
pub const REWARD_UNITS_PER_TOKEN: u64 = 100;

/// Staked amount from which tier 2 starts.
pub const TIER_TWO_STAKE: u64 = 1000;

/// Staked amount from which tier 3 starts.
pub const TIER_THREE_STAKE: u64 = 5000;

/// VIP tier of a staked balance.
pub open spec fn vip_tier_of(amount: u64) -> u8 {
    if amount >= TIER_THREE_STAKE {
        3
    } else if amount >= TIER_TWO_STAKE {
        2
    } else if amount > 0 {
        1
    } else {
        0
    }
}

/// Fee owed on a fill of `fill` units by a filler with `stake` staked,
/// rounded down at each step.
pub open spec fn fee_for(fill: nat, stake: nat) -> nat {
    let base = fill * FEE_PERCENTAGE as nat / 100;
    if stake >= DISCOUNT_THRESHOLD as nat {
        base * VIP_DISCOUNT_MULTIPLIER as nat / 100
    } else {
        base
    }
}

/// Reward tokens minted for a fill of `fill` units.
pub open spec fn reward_for(fill: nat) -> nat {
    fill / REWARD_UNITS_PER_TOKEN as nat
}

/// Derive the VIP tier from a staked balance.
pub fn compute_vip_tier(amount: u64) -> (r: u8)
    ensures
        r == vip_tier_of(amount),
        r <= 3,
{
    if amount >= TIER_THREE_STAKE {
        3
    } else if amount >= TIER_TWO_STAKE {
        2
    } else if amount > 0 {
        1
    } else {
        0
    }
}

/// The fee never exceeds the filled quantity.
pub proof fn lemma_fee_bounded(fill: nat, stake: nat)
    ensures
        fee_for(fill, stake) <= fill,
{
    let base = fill * FEE_PERCENTAGE as nat / 100;
    assert(base <= fill);
    assert(base * VIP_DISCOUNT_MULTIPLIER as nat / 100 <= base);
}

/// Compute the fee on a fill, halved for fillers that stake at least the
/// discount threshold. Truncation can bring a small nonzero fee to zero.
pub fn calculate_fee(fill_quantity: u64, stake_amount: u64) -> (r: u64)
    ensures
        r as nat == fee_for(fill_quantity as nat, stake_amount as nat),
        r <= fill_quantity,
{
    proof {
        lemma_fee_bounded(fill_quantity as nat, stake_amount as nat);
    }
    let base: u64 = fill_quantity * FEE_PERCENTAGE / 100;
    if stake_amount >= DISCOUNT_THRESHOLD {
        base * VIP_DISCOUNT_MULTIPLIER / 100
    } else {
        base
    }
}

/// Compute the reward minted to a filler; uncapped and independent of the
/// treasury balance.
pub fn calculate_reward(fill_quantity: u64) -> (r: u64)
    ensures
        r as nat == reward_for(fill_quantity as nat),
{
    fill_quantity / REWARD_UNITS_PER_TOKEN
}

} // verus!
