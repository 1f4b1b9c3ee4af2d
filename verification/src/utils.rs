//! The reward accrual engine: elapsed days, the fixed-point interest
//! formula, the schedule lookup, and unit conversion.

use vstd::prelude::*;

use crate::constants::{APY_DECIMALS, SECONDS_PER_DAY};
use crate::decimal::{
    checked_div_repr, checked_mul_repr, decimal_div, decimal_mul, pow10, repr_to_u64, DecimalRepr,
};
use crate::error::ErrorCode;
use crate::state::{sat_add_u64, sat_sub_u64, NftApy, StakeEntry};

verus! {

/// Elapsed whole days between two instants: the difference in seconds,
/// saturated into the `i64` range, floored at zero, divided by the
/// length of a day. A query from before the start, or at the start
/// itself, counts as zero days.
pub open spec fn spec_days_passed(start_time: i64, current_time: i64) -> int {
    let diff = current_time - start_time;
    let clamped = if diff < 0 {
        0
    } else if diff > i64::MAX {
        i64::MAX as int
    } else {
        diff
    };
    clamped / (SECONDS_PER_DAY as int)
}

/// Elapsed whole days between two instants, floored, never negative.
pub fn calculate_days_passed(start_time: i64, current_time: i64) -> (days: i64)
    ensures
        days == spec_days_passed(start_time, current_time),
        0 <= days <= i64::MAX / (SECONDS_PER_DAY as i64),
{
    let wide: i128 = (current_time as i128) - (start_time as i128);
    let clamped: i128 = if wide < 0 {
        0
    } else if wide > (i64::MAX as i128) {
        i64::MAX as i128
    } else {
        wide
    };
    (clamped / (SECONDS_PER_DAY as i128)) as i64
}

/// The reward owed for `amount` base units at `apy` basis points over
/// `days_passed` days: the decimal computation
/// `amount * ((apy / 100) / 365 / 100) * days_passed`, truncated to a
/// whole number of base units, or nothing when a step cannot be
/// represented. `apy / 100` is the rate as a percentage (550 means
/// 5.50%); dividing by 365 gives the daily percentage and by 100 the
/// daily multiplier.
pub open spec fn spec_calculate_reward(amount: u64, apy: u16, days_passed: u64) -> Option<u64> {
    match decimal_div(apy as u128, 2, 365, 0) {
        None => None,
        Some(daily_rate) => match decimal_div(daily_rate.0, daily_rate.1, 100, 0) {
            None => None,
            Some(multiplier) => match decimal_mul(amount as u128, 0, multiplier.0, multiplier.1) {
                None => None,
                Some(partial) => match decimal_mul(partial.0, partial.1, days_passed as u128, 0) {
                    None => None,
                    Some(product) => if product.0 as nat / pow10(product.1 as nat)
                        <= u64::MAX as nat {
                        Some((product.0 as nat / pow10(product.1 as nat)) as u64)
                    } else {
                        None
                    },
                },
            },
        },
    }
}

/// Interest owed for an amount, a rate and an elapsed-day count, with a
/// decimal intermediate representation and the final result truncated to
/// whole base units. `None` signals that the computation overflowed; it
/// is never silently wrapped. A zero rate yields exactly zero, and a
/// zero amount or day count yields exactly zero whenever the
/// computation goes through at all.
pub fn calculate_reward(amount: u64, apy: u16, days_passed: u64) -> (reward: Option<u64>)
    ensures
        reward == spec_calculate_reward(amount, apy, days_passed),
        apy == 0 ==> reward == Some(0u64),
        amount == 0 && reward is Some ==> reward == Some(0u64),
        days_passed == 0 && reward is Some ==> reward == Some(0u64),
{
    let d_amount = DecimalRepr { mantissa: amount as u128, scale: 0 };
    let d_apy = DecimalRepr { mantissa: apy as u128, scale: APY_DECIMALS as u32 };
    let d_days_passed = DecimalRepr { mantissa: days_passed as u128, scale: 0 };

    let d_365 = DecimalRepr { mantissa: 365, scale: 0 };
    let daily_rate = match checked_div_repr(d_apy, d_365) {
        Some(v) => v,
        None => {
            return None;
        },
    };

    let d_100 = DecimalRepr { mantissa: 100, scale: 0 };
    let daily_multiplier = match checked_div_repr(daily_rate, d_100) {
        Some(v) => v,
        None => {
            return None;
        },
    };

    let partial = match checked_mul_repr(d_amount, daily_multiplier) {
        Some(v) => v,
        None => {
            return None;
        },
    };
    let reward = match checked_mul_repr(partial, d_days_passed) {
        Some(v) => v,
        None => {
            return None;
        },
    };

    repr_to_u64(reward)
}

/// Bonus days counted for an entry at `now`: days since the bonus lock
/// began, capped by the entry's snapshotted bonus-duration ceiling.
/// Meaningful only when a bonus sub-record is attached.
pub open spec fn spec_nft_days(entry: StakeEntry, now: i64) -> int {
    let days = spec_days_passed(entry.nft_lock_time.unwrap(), now);
    if days <= entry.max_nft_apy_duration_days as int {
        days
    } else {
        entry.max_nft_apy_duration_days as int
    }
}

/// Everything an entry has earned by `now`: the base reward, plus — when
/// a bonus is attached — the bonus reward over the capped bonus days,
/// itself capped by the entry's snapshotted bonus-reward ceiling, the
/// sum saturating. `None` when either reward computation overflowed.
pub open spec fn spec_total_reward(entry: StakeEntry, now: i64) -> Option<u64> {
    let base_days = spec_days_passed(entry.start_time, now);
    match spec_calculate_reward(entry.amount, entry.base_apy, base_days as u64) {
        None => None,
        Some(base) => if entry.nft_lock_time.is_some() && entry.nft_apy.is_some() {
            match spec_calculate_reward(
                entry.amount,
                entry.nft_apy.unwrap(),
                spec_nft_days(entry, now) as u64,
            ) {
                None => None,
                Some(nft_reward) => {
                    let capped = if nft_reward <= entry.max_nft_reward_lamports {
                        nft_reward
                    } else {
                        entry.max_nft_reward_lamports
                    };
                    Some(sat_add_u64(base, capped))
                },
            }
        } else {
            Some(base)
        },
    }
}

/// What an entry is owed at `now` beyond what it was already paid:
/// everything earned, minus the paid total, floored at zero. `None`
/// when a reward computation overflowed.
pub open spec fn spec_claimable_reward(entry: StakeEntry, now: i64) -> Option<u64> {
    match spec_total_reward(entry, now) {
        None => None,
        Some(total) => Some(sat_sub_u64(total, entry.paid_amount)),
    }
}

/// The reward an entry can claim at `current_time`: accrued base and
/// capped bonus interest, minus what was already paid, floored at zero.
/// Fails exactly when a reward computation overflows; nothing is then
/// applied.
pub fn calculate_claimable_reward(stake_entry: &StakeEntry, current_time: i64) -> (r: Result<
    u64,
    ErrorCode,
>)
    ensures
        r == (match spec_claimable_reward(*stake_entry, current_time) {
            Some(v) => Ok::<u64, ErrorCode>(v),
            None => Err::<u64, ErrorCode>(ErrorCode::RewardCalculationFailed),
        }),
{
    let base_days = calculate_days_passed(stake_entry.start_time, current_time);
    let mut total_reward = match calculate_reward(
        stake_entry.amount,
        stake_entry.base_apy,
        base_days as u64,
    ) {
        Some(v) => v,
        None => {
            return Err(ErrorCode::RewardCalculationFailed);
        },
    };

    match (stake_entry.nft_lock_time, stake_entry.nft_apy) {
        (Some(nft_lock_time), Some(nft_apy)) => {
            let nft_days = calculate_days_passed(nft_lock_time, current_time);
            let cap = stake_entry.max_nft_apy_duration_days as i64;
            let nft_effective_days = if nft_days <= cap {
                nft_days
            } else {
                cap
            };
            let nft_reward = match calculate_reward(
                stake_entry.amount,
                nft_apy,
                nft_effective_days as u64,
            ) {
                Some(v) => v,
                None => {
                    return Err(ErrorCode::RewardCalculationFailed);
                },
            };
            let capped = if nft_reward <= stake_entry.max_nft_reward_lamports {
                nft_reward
            } else {
                stake_entry.max_nft_reward_lamports
            };
            total_reward = total_reward.saturating_add(capped);
        },
        _ => {},
    }

    Ok(total_reward.saturating_sub(stake_entry.paid_amount))
}

/// First tier of the schedule whose duration matches `lock_days`
/// exactly; no interpolation, no nearest match.
pub open spec fn spec_get_apy(nft_days_apy: [NftApy; 3], lock_days: u16) -> Option<u16> {
    if nft_days_apy@[0].days == lock_days {
        Some(nft_days_apy@[0].apy)
    } else if nft_days_apy@[1].days == lock_days {
        Some(nft_days_apy@[1].apy)
    } else if nft_days_apy@[2].days == lock_days {
        Some(nft_days_apy@[2].apy)
    } else {
        None
    }
}

/// Rate for an exact lock duration, looked up in the bonus schedule.
/// Succeeds if and only if some tier matches the duration exactly;
/// fails with `InvalidStakePeriod` otherwise.
pub fn get_apy(lock_days: u16, nft_days_apy: [NftApy; 3]) -> (r: Result<u16, ErrorCode>)
    ensures
        r == (match spec_get_apy(nft_days_apy, lock_days) {
            Some(apy) => Ok::<u16, ErrorCode>(apy),
            None => Err::<u16, ErrorCode>(ErrorCode::InvalidStakePeriod),
        }),
        (r is Ok) == (exists|i: int| 0 <= i < 3 && nft_days_apy@[i].days == lock_days),
{
    let mut i: usize = 0;
    while i < 3
        invariant
            0 <= i <= 3,
            forall|k: int| 0 <= k < i ==> nft_days_apy@[k].days != lock_days,
        decreases 3 - i,
    {
        if nft_days_apy[i].days == lock_days {
            return Ok(nft_days_apy[i].apy);
        }
        i = i + 1;
    }
    Err(ErrorCode::InvalidStakePeriod)
}

/// As the query instant advances, the day count feeding the reward
/// formula never decreases.
pub proof fn lemma_days_passed_monotonic(start_time: i64, t1: i64, t2: i64)
    requires
        t1 <= t2,
    ensures
        spec_days_passed(start_time, t1) <= spec_days_passed(start_time, t2),
{
    let diff1 = t1 - start_time;
    let diff2 = t2 - start_time;
    let clamped1 = if diff1 < 0 {
        0
    } else if diff1 > i64::MAX {
        i64::MAX as int
    } else {
        diff1
    };
    let clamped2 = if diff2 < 0 {
        0
    } else if diff2 > i64::MAX {
        i64::MAX as int
    } else {
        diff2
    };
    vstd::arithmetic::div_mod::lemma_div_is_ordered(clamped1, clamped2, SECONDS_PER_DAY as int);
}

/// The claimable reward is monotone in the total accrued: for one entry
/// and two instants at which the total reward is defined and ordered,
/// the claimable amounts are ordered the same way. Together with the
/// day counts never decreasing, this reduces the growth of the
/// claimable reward over time to the growth of the decimal interest
/// formula in its day count.
pub proof fn lemma_claimable_monotonic_in_total(entry: StakeEntry, t1: i64, t2: i64)
    requires
        spec_total_reward(entry, t1) is Some,
        spec_total_reward(entry, t2) is Some,
        spec_total_reward(entry, t1).unwrap() <= spec_total_reward(entry, t2).unwrap(),
    ensures
        spec_claimable_reward(entry, t1) is Some,
        spec_claimable_reward(entry, t2) is Some,
        spec_claimable_reward(entry, t1).unwrap() <= spec_claimable_reward(entry, t2).unwrap(),
{
}

/// Monotonicity of powers of ten.
proof fn lemma_pow10_increases(a: nat, b: nat)
    requires
        a <= b,
    ensures
        pow10(a) <= pow10(b),
    decreases b,
{
    if a < b {
        lemma_pow10_increases(a, (b - 1) as nat);
    }
}

/// A whole-token amount converted to base units: `amount * 10^decimals`,
/// failing with `MathOverflow` when either the power of ten or the
/// product does not fit in a `u64`.
pub fn to_lamports(amount: u64, decimals: u8) -> (r: Result<u64, ErrorCode>)
    ensures
        r == (if pow10(decimals as nat) <= u64::MAX as nat && amount * pow10(decimals as nat)
            <= u64::MAX as nat {
            Ok::<u64, ErrorCode>((amount * pow10(decimals as nat)) as u64)
        } else {
            Err::<u64, ErrorCode>(ErrorCode::MathOverflow)
        }),
{
    let mut power: u64 = 1;
    let mut i: u8 = 0;
    while i < decimals
        invariant
            0 <= i <= decimals,
            power == pow10(i as nat),
        decreases decimals - i,
    {
        power = match power.checked_mul(10) {
            Some(p) => p,
            None => {
                proof {
                    lemma_pow10_increases((i + 1) as nat, decimals as nat);
                }
                return Err(ErrorCode::MathOverflow);
            },
        };
        i = i + 1;
    }
    match amount.checked_mul(power) {
        Some(v) => Ok(v),
        None => Err(ErrorCode::MathOverflow),
    }
}

} // verus!
