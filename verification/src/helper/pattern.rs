//! The three-step transition pattern of the reward ledger.
//!
//! Every change to a participant's stake, and every reward claim, is the
//! ordered sequence harvest, unstake, stake. Harvest brings the participant's
//! debt up to date at an unchanged pool total; unstake detaches the
//! participant from the pool and corrects the pool's compensation for the
//! jump in reward per share; stake attaches the participant again with the
//! new share count.
//!
//! All ratios and the compensation are fixed-point numbers scaled by
//! `PRECISION`. Intermediate products are held in `BigInt`, so nothing is
//! truncated before the final range check.

use crate::wide::big_add;
use crate::wide::big_div;
use crate::wide::big_eq;
use crate::wide::big_from_i128;
use crate::wide::big_from_u64;
use crate::wide::big_is_negative;
use crate::wide::big_mul;
use crate::wide::big_sub;
use crate::wide::big_to_i128;
use crate::wide::big_to_u128;
use crate::wide::big_value;
use num_bigint::BigInt;
use vstd::prelude::*;

verus! {

/// The fixed-point scale of ratios and of the compensation: 10^18.
pub const PRECISION: u64 = 1000000000000000000;

/// Why a transition was rejected.
#[derive(Clone, Copy, Debug, PartialEq, Eq, Structural)]
pub enum TransitionError {
    /// The pool totals before and after the step are not ordered as the step
    /// demands, or a stake was attempted on a participant that still carries
    /// debt: the steps were called out of order.
    AccountingPrecondition,
    /// The recomputed debt fell below the recorded one.
    NonMonotonicDebt,
    /// A result does not fit the width it is stored in.
    NumericOverflow,
    /// An unstake was attempted on a participant whose recorded debt is not
    /// the fully harvested one.
    StaleDebt,
}

/// The participant's shares and debt, and the pool's compensation.
pub type Ledger = (u64, u128, i128);

/// Reward per share, scaled by `PRECISION` and rounded down. An empty pool
/// has ratio zero.
pub open spec fn fraction(reward: u64, total_shares: u64) -> int {
    if total_shares == 0 {
        0
    } else {
        (PRECISION * reward) / (total_shares as int)
    }
}

/// The reward credited to `shares` after `delay` periods at the scaled
/// `ratio`, corrected by the pool's `compensation` and rounded down. The
/// rounding is toward negative infinity: a numerator below zero gives a
/// result below zero, never zero.
pub open spec fn accrued(ratio: int, delay: int, compensation: int, shares: int) -> int {
    ((ratio * delay + compensation) * shares) / (PRECISION as int)
}

/// The compensation after shares left a pool, where the ratio moves from
/// `current_ratio` to `next_ratio`. The compensation is held at the scale of
/// the ratios, so the correction enters it as it is, not divided by
/// `PRECISION`. A pool whose next ratio is zero starts afresh.
pub open spec fn compensation_after_unstake(
    compensation: int,
    current_ratio: int,
    next_ratio: int,
    delay: int,
) -> int {
    if next_ratio == 0 {
        0
    } else {
        compensation - (next_ratio - current_ratio) * delay
    }
}

/// The compensation after shares entered a pool, where the ratio moves from
/// `current_ratio` to `next_ratio`: the mirror of the correction on leaving,
/// at the same scale. A pool whose current ratio is zero starts afresh.
pub open spec fn compensation_after_stake(
    compensation: int,
    current_ratio: int,
    next_ratio: int,
    delay: int,
) -> int {
    if current_ratio == 0 {
        0
    } else {
        compensation + (current_ratio - next_ratio) * delay
    }
}

/// What `Pattern::fully_havest` returns.
pub open spec fn harvested(
    shares: u64,
    debt: u128,
    compensation: i128,
    delay: u64,
    reward: u64,
    current_total_shares: u64,
    next_total_shares: u64,
) -> Result<Ledger, TransitionError> {
    let new_debt = accrued(
        fraction(reward, current_total_shares),
        delay as int,
        compensation as int,
        shares as int,
    );
    if current_total_shares != next_total_shares {
        Err(TransitionError::AccountingPrecondition)
    } else if new_debt < 0 || new_debt > u128::MAX {
        Err(TransitionError::NumericOverflow)
    } else if new_debt < debt {
        Err(TransitionError::NonMonotonicDebt)
    } else {
        Ok((shares, new_debt as u128, compensation))
    }
}

/// What `Pattern::fully_unstake` returns.
pub open spec fn unstaked(
    shares: u64,
    debt: u128,
    compensation: i128,
    delay: u64,
    reward: u64,
    current_total_shares: u64,
    next_total_shares: u64,
) -> Result<Ledger, TransitionError> {
    let expected_debt = accrued(
        fraction(reward, current_total_shares),
        delay as int,
        compensation as int,
        shares as int,
    );
    let new_compensation = compensation_after_unstake(
        compensation as int,
        fraction(reward, current_total_shares),
        fraction(reward, next_total_shares),
        delay as int,
    );
    if next_total_shares > current_total_shares {
        Err(TransitionError::AccountingPrecondition)
    } else if expected_debt < 0 || expected_debt > u128::MAX {
        Err(TransitionError::NumericOverflow)
    } else if debt != expected_debt {
        Err(TransitionError::StaleDebt)
    } else if new_compensation < i128::MIN || new_compensation > i128::MAX {
        Err(TransitionError::NumericOverflow)
    } else {
        Ok((0u64, 0u128, new_compensation as i128))
    }
}

/// What `Pattern::fully_stake` returns.
pub open spec fn staked(
    shares: u64,
    debt: u128,
    compensation: i128,
    delay: u64,
    reward: u64,
    current_total_shares: u64,
    next_total_shares: u64,
) -> Result<Ledger, TransitionError> {
    let new_compensation = compensation_after_stake(
        compensation as int,
        fraction(reward, current_total_shares),
        fraction(reward, next_total_shares),
        delay as int,
    );
    let new_debt = accrued(
        fraction(reward, next_total_shares),
        delay as int,
        new_compensation,
        shares as int,
    );
    if current_total_shares > next_total_shares || debt != 0 {
        Err(TransitionError::AccountingPrecondition)
    } else if new_debt < 0 || new_debt > u128::MAX {
        Err(TransitionError::NumericOverflow)
    } else if new_compensation < i128::MIN || new_compensation > i128::MAX {
        Err(TransitionError::NumericOverflow)
    } else {
        Ok((shares, new_debt as u128, new_compensation as i128))
    }
}

/// The transition pattern: harvest, then unstake, then stake.
pub struct Pattern {}

impl Pattern {
    /// The scaled reward per share of a pool, and the scale itself.
    ///
    /// The product of scale and reward is taken in full before the division.
    /// An empty pool yields ratio zero rather than a failure, so the result is
    /// never `None`.
    pub fn fractionalize_reward(reward: u64, total_shares: u64) -> (r: Option<(BigInt, BigInt)>)
        ensures
            r is Some,
            big_value(&r->Some_0.0) == fraction(reward, total_shares),
            big_value(&r->Some_0.1) == PRECISION,
    {
        Some(Self::ratio_and_scale(reward, total_shares))
    }

    /// The scaled reward per share of a pool, and the scale itself.
    fn ratio_and_scale(reward: u64, total_shares: u64) -> (r: (BigInt, BigInt))
        ensures
            big_value(&r.0) == fraction(reward, total_shares),
            big_value(&r.1) == PRECISION,
    {
        let precision = big_from_u64(PRECISION);
        if total_shares == 0 {
            return (big_from_u64(0u64), precision);
        }
        let reward = big_from_u64(reward);
        let total_shares = big_from_u64(total_shares);
        let product = big_mul(&precision, &reward);
        let fractional_reward = big_div(&product, &total_shares);
        (fractional_reward, precision)
    }

    /// The debt formula shared by the three steps, range-checked into `u128`.
    fn accrue(
        ratio: &BigInt,
        delay: &BigInt,
        compensation: &BigInt,
        shares: &BigInt,
        precision: &BigInt,
    ) -> (r: Option<u128>)
        requires
            big_value(precision) == PRECISION,
        ensures
            ({
                let exact = accrued(
                    big_value(ratio),
                    big_value(delay),
                    big_value(compensation),
                    big_value(shares),
                );
                &&& r is Some <==> 0 <= exact <= u128::MAX
                &&& r is Some ==> r->Some_0 == exact
            }),
    {
        let grown = big_mul(ratio, delay);
        let corrected = big_add(&grown, compensation);
        let scaled = big_mul(&corrected, shares);
        if big_is_negative(&scaled) {
            // Rounded down, a negative numerator gives a negative debt.
            return None;
        }
        let quotient = big_div(&scaled, precision);
        big_to_u128(&quotient)
    }

    /// Harvest: brings the participant's debt up to date at an unchanged pool
    /// total. Shares and compensation come back as they went in; the reward
    /// to pay out is the new debt less the recorded one.
    ///
    /// Rejected where the two totals differ, where the new debt does not fit
    /// `u128`, and where it falls below the recorded debt.
    pub fn fully_havest(
        shares: u64,
        debt: u128,
        compensation: i128,
        delay: u64,
        reward: u64,
        current_total_shares: u64,
        next_total_shares: u64,
    ) -> (r: Result<Ledger, TransitionError>)
        ensures
            r == harvested(
                shares,
                debt,
                compensation,
                delay,
                reward,
                current_total_shares,
                next_total_shares,
            ),
    {
        if current_total_shares != next_total_shares {
            return Err(TransitionError::AccountingPrecondition);
        }
        let big_shares = big_from_u64(shares);
        let big_compensation = big_from_i128(compensation);
        let big_delay = big_from_u64(delay);
        let (current_fraction, precision) = Self::ratio_and_scale(reward, current_total_shares);
        let new_debt = match Self::accrue(
            &current_fraction,
            &big_delay,
            &big_compensation,
            &big_shares,
            &precision,
        ) {
            Some(value) => value,
            None => { return Err(TransitionError::NumericOverflow); },
        };
        if debt > new_debt {
            return Err(TransitionError::NonMonotonicDebt);
        }
        Ok((shares, new_debt, compensation))
    }

    /// Unstake: detaches a fully harvested participant from the pool. Shares
    /// and debt come back as zero; the compensation absorbs the change of
    /// ratio from the current total to the next.
    ///
    /// Rejected where the next total exceeds the current one, where the
    /// recorded debt is not the harvested one, and where the expected debt or
    /// the new compensation does not fit its width.
    pub fn fully_unstake(
        shares: u64,
        debt: u128,
        compensation: i128,
        delay: u64,
        reward: u64,
        current_total_shares: u64,
        next_total_shares: u64,
    ) -> (r: Result<Ledger, TransitionError>)
        ensures
            r == unstaked(
                shares,
                debt,
                compensation,
                delay,
                reward,
                current_total_shares,
                next_total_shares,
            ),
    {
        if next_total_shares > current_total_shares {
            return Err(TransitionError::AccountingPrecondition);
        }
        let big_shares = big_from_u64(shares);
        let big_compensation = big_from_i128(compensation);
        let big_delay = big_from_u64(delay);
        let (current_fraction, precision) = Self::ratio_and_scale(reward, current_total_shares);
        let (next_fraction, _) = Self::ratio_and_scale(reward, next_total_shares);
        let expected_debt = match Self::accrue(
            &current_fraction,
            &big_delay,
            &big_compensation,
            &big_shares,
            &precision,
        ) {
            Some(value) => value,
            None => { return Err(TransitionError::NumericOverflow); },
        };
        if debt != expected_debt {
            return Err(TransitionError::StaleDebt);
        }
        let zero = big_from_u64(0u64);
        let new_compensation = if big_eq(&next_fraction, &zero) {
            zero
        } else {
            let jump = big_sub(&next_fraction, &current_fraction);
            let correction = big_mul(&jump, &big_delay);
            big_sub(&big_compensation, &correction)
        };
        match big_to_i128(&new_compensation) {
            Some(value) => Ok((0, 0, value)),
            None => Err(TransitionError::NumericOverflow),
        }
    }

    /// Stake: attaches a detached participant to the pool with `shares`. The
    /// compensation absorbs the change of ratio from the current total to the
    /// next, and the debt starts at what `shares` would have accrued so far.
    ///
    /// Rejected where the current total exceeds the next one or the
    /// participant still carries debt, and where the new debt or the new
    /// compensation does not fit its width.
    pub fn fully_stake(
        shares: u64,
        debt: u128,
        compensation: i128,
        delay: u64,
        reward: u64,
        current_total_shares: u64,
        next_total_shares: u64,
    ) -> (r: Result<Ledger, TransitionError>)
        ensures
            r == staked(
                shares,
                debt,
                compensation,
                delay,
                reward,
                current_total_shares,
                next_total_shares,
            ),
    {
        if current_total_shares > next_total_shares || debt != 0 {
            return Err(TransitionError::AccountingPrecondition);
        }
        let big_shares = big_from_u64(shares);
        let big_compensation = big_from_i128(compensation);
        let big_delay = big_from_u64(delay);
        let (current_fraction, precision) = Self::ratio_and_scale(reward, current_total_shares);
        let (next_fraction, _) = Self::ratio_and_scale(reward, next_total_shares);
        let zero = big_from_u64(0u64);
        let new_compensation = if big_eq(&current_fraction, &zero) {
            zero
        } else {
            let jump = big_sub(&current_fraction, &next_fraction);
            let correction = big_mul(&jump, &big_delay);
            big_add(&big_compensation, &correction)
        };
        let new_debt = match Self::accrue(
            &next_fraction,
            &big_delay,
            &new_compensation,
            &big_shares,
            &precision,
        ) {
            Some(value) => value,
            None => { return Err(TransitionError::NumericOverflow); },
        };
        match big_to_i128(&new_compensation) {
            Some(value) => Ok((shares, new_debt, value)),
            None => Err(TransitionError::NumericOverflow),
        }
    }
}

} // verus!
