//! The fixed-point time-reward calculator.
//!
//! Rewards accrue linearly: `principal * apy * elapsed` divided by the number
//! of percent-seconds in a fixed 365-day year, truncating toward zero. All
//! intermediate products are carried in 128 bits and every step is checked.

use vstd::arithmetic::div_mod::lemma_div_is_ordered;
use vstd::arithmetic::mul::lemma_mul_upper_bound;
use vstd::prelude::*;

use crate::errors::ErrorCode;

verus! {

/// Seconds in the fixed 365-day year used by the accrual formula
/// (no leap-year adjustment by design).
pub const SECONDS_PER_YEAR: u64 = 3600 * 24 * 365;

/// Reward owed for `principal` staked at `apy` integer percentage points per
/// year over `elapsed` seconds:
/// `floor(principal * apy * elapsed / (100 * SECONDS_PER_YEAR))`.
pub open spec fn reward_of(principal: int, apy: int, elapsed: int) -> int {
    (principal * apy * elapsed) / (100 * (SECONDS_PER_YEAR as int))
}

/// Reward a harvest computes for a position: the staged form
/// `floor(floor(amount * multiplier * apy / 100) * elapsed / SECONDS_PER_YEAR)`,
/// with the division by 100 taken before elapsed time is applied.
pub open spec fn harvest_reward_of(amount: int, multiplier: int, apy: int, elapsed: int) -> int {
    ((amount * multiplier * apy) / 100) * elapsed / (SECONDS_PER_YEAR as int)
}

/// Computes `reward_of` for 64-bit inputs, failing with `MathOverflow`
/// exactly when the wide intermediate product does not fit in 128 bits.
pub fn accrued_reward(principal: u64, apy_percent: u64, elapsed_seconds: u64) -> (r: Result<
    u128,
    ErrorCode,
>)
    ensures
        match r {
            Ok(v) => (principal as int) * (apy_percent as int) * (elapsed_seconds as int)
                <= u128::MAX && v == reward_of(
                principal as int,
                apy_percent as int,
                elapsed_seconds as int,
            ),
            Err(e) => e == ErrorCode::MathOverflow && (principal as int) * (apy_percent as int) * (
            elapsed_seconds as int) > u128::MAX,
        },
{
    proof {
        lemma_mul_upper_bound(principal as int, u64::MAX as int, apy_percent as int, u64::MAX as int);
    }
    let rate_product = match (principal as u128).checked_mul(apy_percent as u128) {
        Some(v) => v,
        None => { return Err(ErrorCode::MathOverflow) },
    };
    let wide_product = match rate_product.checked_mul(elapsed_seconds as u128) {
        Some(v) => v,
        None => { return Err(ErrorCode::MathOverflow) },
    };
    let divisor: u128 = 100 * (SECONDS_PER_YEAR as u128);
    Ok(wide_product / divisor)
}

/// Law: the accrued reward is monotonically non-decreasing in each of its
/// three arguments.
pub proof fn lemma_reward_monotonic(p1: int, a1: int, e1: int, p2: int, a2: int, e2: int)
    requires
        0 <= p1 <= p2,
        0 <= a1 <= a2,
        0 <= e1 <= e2,
    ensures
        reward_of(p1, a1, e1) <= reward_of(p2, a2, e2),
{
    lemma_mul_upper_bound(p1, p2, a1, a2);
    lemma_mul_upper_bound(p1 * a1, p2 * a2, e1, e2);
    lemma_div_is_ordered(p1 * a1 * e1, p2 * a2 * e2, 100 * (SECONDS_PER_YEAR as int));
}

/// Law: no reward accrues over zero elapsed time.
pub proof fn lemma_reward_zero_elapsed(principal: int, apy: int)
    ensures
        reward_of(principal, apy, 0) == 0,
{
}

/// Law: a harvest over zero elapsed time computes no new reward.
pub proof fn lemma_harvest_reward_zero_elapsed(amount: int, multiplier: int, apy: int)
    ensures
        harvest_reward_of(amount, multiplier, apy, 0) == 0,
{
}

} // verus!
