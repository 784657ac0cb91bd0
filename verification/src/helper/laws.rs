//! What holds of the transition pattern for every input: rounding of the
//! ratio, repeated harvests, harvests at growing delays, the round trip
//! through unstake and stake, and what a change of one participant's stake
//! leaves untouched.

use crate::helper::pattern::accrued;
use crate::helper::pattern::fraction;
use crate::helper::pattern::harvested;
use crate::helper::pattern::staked;
use crate::helper::pattern::unstaked;
use crate::helper::pattern::Ledger;
use crate::helper::pattern::TransitionError;
use crate::helper::pattern::PRECISION;
use crate::processor::recorded;
use crate::processor::settled;
use crate::processor::Settlement;
use crate::schema::debt::Debt;
use crate::schema::stake_pool::StakePool;
use vstd::prelude::*;

verus! {

/// The ratio of a pool with shares is the scaled reward divided by the
/// total, rounded down: it is the one integer `q` with
/// `q * total <= PRECISION * reward < (q + 1) * total`. It is never negative
/// and never above the scaled reward. The ratio of an empty pool is zero.
pub proof fn fraction_rounds_down(reward: u64, total_shares: u64)
    ensures
        total_shares == 0 ==> fraction(reward, total_shares) == 0,
        total_shares > 0 ==> fraction(reward, total_shares) * total_shares <= PRECISION * reward
            < (fraction(reward, total_shares) + 1) * total_shares,
        0 <= fraction(reward, total_shares) <= PRECISION * reward,
{
    if total_shares > 0 {
        let scaled: int = PRECISION * reward;
        let total: int = total_shares as int;
        assert(scaled / total * total <= scaled < (scaled / total + 1) * total && 0 <= scaled
            / total <= scaled) by (nonlinear_arith)
            requires
                scaled >= 0,
                total > 0,
        ;
    }
}

/// The accrued debt does not shrink as the delay grows, for a ratio and a
/// share count that are not negative.
pub proof fn accrued_grows_with_delay(
    ratio: int,
    earlier: int,
    later: int,
    compensation: int,
    shares: int,
)
    requires
        0 <= ratio,
        0 <= shares,
        earlier <= later,
    ensures
        accrued(ratio, earlier, compensation, shares) <= accrued(
            ratio,
            later,
            compensation,
            shares,
        ),
{
    assert((ratio * earlier + compensation) * shares <= (ratio * later + compensation) * shares)
        by (nonlinear_arith)
        requires
            0 <= ratio,
            0 <= shares,
            earlier <= later,
    ;
}

/// A harvest changes nothing but the debt: the shares and the pool's
/// compensation come back as they went in.
pub proof fn harvest_changes_the_debt_only(
    shares: u64,
    debt: u128,
    compensation: i128,
    delay: u64,
    reward: u64,
    total_shares: u64,
)
    requires
        harvested(shares, debt, compensation, delay, reward, total_shares, total_shares) is Ok,
    ensures
        ({
            let after = harvested(
                shares,
                debt,
                compensation,
                delay,
                reward,
                total_shares,
                total_shares,
            )->Ok_0;
            &&& after.0 == shares
            &&& after.1 >= debt
            &&& after.2 == compensation
        }),
{
}

/// Harvesting twice at the same delay and pool total pays nothing the second
/// time: the second harvest succeeds and returns the ledger of the first.
pub proof fn harvest_is_idempotent(
    shares: u64,
    debt: u128,
    compensation: i128,
    delay: u64,
    reward: u64,
    total_shares: u64,
)
    requires
        harvested(shares, debt, compensation, delay, reward, total_shares, total_shares) is Ok,
    ensures
        ({
            let first = harvested(
                shares,
                debt,
                compensation,
                delay,
                reward,
                total_shares,
                total_shares,
            )->Ok_0;
            let second = harvested(
                first.0,
                first.1,
                first.2,
                delay,
                reward,
                total_shares,
                total_shares,
            );
            &&& second == Ok::<Ledger, TransitionError>(first)
            &&& second->Ok_0.1 - first.1 == 0
        }),
{
}

/// For fixed shares, compensation, reward and pool total, the debt that a
/// harvest returns does not shrink as the delay grows, whatever debt was
/// recorded before either harvest.
pub proof fn harvest_grows_with_delay(
    shares: u64,
    compensation: i128,
    reward: u64,
    total_shares: u64,
    earlier: u64,
    earlier_debt: u128,
    later: u64,
    later_debt: u128,
)
    requires
        earlier <= later,
        harvested(shares, earlier_debt, compensation, earlier, reward, total_shares, total_shares)
            is Ok,
        harvested(shares, later_debt, compensation, later, reward, total_shares, total_shares)
            is Ok,
    ensures
        harvested(
            shares,
            earlier_debt,
            compensation,
            earlier,
            reward,
            total_shares,
            total_shares,
        )->Ok_0.1 <= harvested(
            shares,
            later_debt,
            compensation,
            later,
            reward,
            total_shares,
            total_shares,
        )->Ok_0.1,
{
    fraction_rounds_down(reward, total_shares);
    accrued_grows_with_delay(
        fraction(reward, total_shares),
        earlier as int,
        later as int,
        compensation as int,
        shares as int,
    );
}

/// A harvest that follows an earlier harvest of the same participant, at an
/// unchanged pool and a delay that is no smaller, never finds the debt
/// shrunk.
pub proof fn harvest_after_harvest_is_monotonic(
    shares: u64,
    debt: u128,
    compensation: i128,
    reward: u64,
    total_shares: u64,
    earlier: u64,
    later: u64,
)
    requires
        earlier <= later,
        harvested(shares, debt, compensation, earlier, reward, total_shares, total_shares) is Ok,
    ensures
        ({
            let first = harvested(
                shares,
                debt,
                compensation,
                earlier,
                reward,
                total_shares,
                total_shares,
            )->Ok_0;
            harvested(first.0, first.1, first.2, later, reward, total_shares, total_shares)
                != Err::<Ledger, TransitionError>(TransitionError::NonMonotonicDebt)
        }),
{
    fraction_rounds_down(reward, total_shares);
    accrued_grows_with_delay(
        fraction(reward, total_shares),
        earlier as int,
        later as int,
        compensation as int,
        shares as int,
    );
}

/// A participant without shares and without debt harvests nothing, from any
/// pool and at any delay: the harvest succeeds with debt zero.
pub proof fn harvest_without_shares_pays_nothing(
    compensation: i128,
    delay: u64,
    reward: u64,
    total_shares: u64,
)
    ensures
        harvested(0, 0, compensation, delay, reward, total_shares, total_shares) == Ok::<
            Ledger,
            TransitionError,
        >((0u64, 0u128, compensation)),
{
}

/// Unstake followed at once by stake of the same shares, back to the same
/// pool total, restores the participant's debt and the pool's compensation.
///
/// The pool in between, with the participant's shares taken out, must have
/// a ratio above zero, or else the debt must not depend on the
/// compensation: a pool whose ratio is zero forgets its compensation.
pub proof fn unstake_then_stake_restores_debt(
    shares: u64,
    debt: u128,
    compensation: i128,
    delay: u64,
    reward: u64,
    total_shares: u64,
    remaining_shares: u64,
)
    requires
        unstaked(shares, debt, compensation, delay, reward, total_shares, remaining_shares) is Ok,
        fraction(reward, remaining_shares) == 0 ==> accrued(
            fraction(reward, total_shares),
            delay as int,
            0,
            shares as int,
        ) == debt,
    ensures
        ({
            let detached = unstaked(
                shares,
                debt,
                compensation,
                delay,
                reward,
                total_shares,
                remaining_shares,
            )->Ok_0;
            let attached = staked(
                shares,
                detached.1,
                detached.2,
                delay,
                reward,
                remaining_shares,
                total_shares,
            );
            &&& detached.0 == 0 && detached.1 == 0
            &&& attached is Ok
            &&& attached->Ok_0.0 == shares
            &&& attached->Ok_0.1 == debt
            &&& fraction(reward, remaining_shares) != 0 ==> attached->Ok_0.2 == compensation
        }),
{
}

/// Shares that enter a pool leave what every other holding has accrued so
/// far as it was: under the new ratio and the new compensation, `other`
/// shares have accrued at `delay` what they had under the old ones.
///
/// The pool must have had a ratio above zero: a pool whose ratio is zero
/// forgets its compensation.
pub proof fn stake_spares_other_debts(
    shares: u64,
    compensation: i128,
    delay: u64,
    reward: u64,
    current_total_shares: u64,
    next_total_shares: u64,
    other: u64,
)
    requires
        staked(shares, 0, compensation, delay, reward, current_total_shares, next_total_shares)
            is Ok,
        fraction(reward, current_total_shares) != 0,
    ensures
        accrued(
            fraction(reward, next_total_shares),
            delay as int,
            staked(
                shares,
                0,
                compensation,
                delay,
                reward,
                current_total_shares,
                next_total_shares,
            )->Ok_0.2 as int,
            other as int,
        ) == accrued(
            fraction(reward, current_total_shares),
            delay as int,
            compensation as int,
            other as int,
        ),
{
    let before = fraction(reward, current_total_shares);
    let after = fraction(reward, next_total_shares);
    let periods = delay as int;
    assert(after * periods + (before - after) * periods == before * periods)
        by (nonlinear_arith);
}

/// Shares that leave a pool leave what every other holding has accrued so
/// far as it was: under the new ratio and the new compensation, `other`
/// shares have accrued at `delay` what they had under the old ones.
///
/// The pool must keep a ratio above zero: a pool whose ratio is zero forgets
/// its compensation.
pub proof fn unstake_spares_other_debts(
    shares: u64,
    debt: u128,
    compensation: i128,
    delay: u64,
    reward: u64,
    current_total_shares: u64,
    next_total_shares: u64,
    other: u64,
)
    requires
        unstaked(shares, debt, compensation, delay, reward, current_total_shares, next_total_shares)
            is Ok,
        fraction(reward, next_total_shares) != 0,
    ensures
        accrued(
            fraction(reward, next_total_shares),
            delay as int,
            unstaked(
                shares,
                debt,
                compensation,
                delay,
                reward,
                current_total_shares,
                next_total_shares,
            )->Ok_0.2 as int,
            other as int,
        ) == accrued(
            fraction(reward, current_total_shares),
            delay as int,
            compensation as int,
            other as int,
        ),
{
    let before = fraction(reward, current_total_shares);
    let after = fraction(reward, next_total_shares);
    let periods = delay as int;
    assert(after * periods - (after - before) * periods == before * periods)
        by (nonlinear_arith);
}

/// A settlement changes the pool's total by what it changes the
/// participant's shares: the shares of all others add up as before. It pays
/// out what the harvest at the unchanged total credits beyond the recorded
/// debt.
pub proof fn settlement_moves_one_participant(
    shares: u64,
    target: int,
    debt: u128,
    compensation: i128,
    delay: u64,
    reward: u64,
    total_shares: u64,
)
    requires
        settled(shares, target, debt, compensation, delay, reward, total_shares) is Ok,
    ensures
        ({
            let after: Settlement = settled(
                shares,
                target,
                debt,
                compensation,
                delay,
                reward,
                total_shares,
            )->Ok_0;
            let harvest = harvested(
                shares,
                debt,
                compensation,
                delay,
                reward,
                total_shares,
                total_shares,
            );
            &&& after.shares == target
            &&& shares <= total_shares
            &&& after.total_shares - after.shares == total_shares - shares
            &&& harvest is Ok
            &&& after.payout == harvest->Ok_0.1 - debt
        }),
{
}

/// A settlement of one participant leaves what every other holding has
/// accrued so far as it was: under the pool's new total and compensation,
/// `other` shares have accrued at `delay` what they had under the old ones.
/// From then on they accrue at the new ratio.
///
/// The pool without the participant's shares must have a ratio above zero:
/// a pool whose ratio is zero forgets its compensation.
pub proof fn settlement_spares_other_debts(
    shares: u64,
    target: int,
    debt: u128,
    compensation: i128,
    delay: u64,
    reward: u64,
    total_shares: u64,
    other: u64,
)
    requires
        settled(shares, target, debt, compensation, delay, reward, total_shares) is Ok,
        fraction(reward, (total_shares - shares) as u64) != 0,
    ensures
        ({
            let after: Settlement = settled(
                shares,
                target,
                debt,
                compensation,
                delay,
                reward,
                total_shares,
            )->Ok_0;
            accrued(
                fraction(reward, after.total_shares),
                delay as int,
                after.compensation as int,
                other as int,
            ) == accrued(
                fraction(reward, total_shares),
                delay as int,
                compensation as int,
                other as int,
            )
        }),
{
    let after: Settlement = settled(
        shares,
        target,
        debt,
        compensation,
        delay,
        reward,
        total_shares,
    )->Ok_0;
    let before = fraction(reward, total_shares);
    let between = fraction(reward, (total_shares - shares) as u64);
    let beyond = fraction(reward, after.total_shares);
    let periods = delay as int;
    assert(beyond * periods + (compensation - (between - before) * periods + (between - beyond)
        * periods) == before * periods + compensation) by (nonlinear_arith);
}

/// A participant that takes out all its shares is left without shares and
/// without debt, so that its record may be closed. Where it held all shares
/// of the pool, the pool is left without shares and without compensation.
pub proof fn full_unstake_clears_the_participant(
    shares: u64,
    debt: u128,
    compensation: i128,
    delay: u64,
    reward: u64,
    total_shares: u64,
)
    requires
        settled(shares, 0, debt, compensation, delay, reward, total_shares) is Ok,
    ensures
        ({
            let after: Settlement = settled(
                shares,
                0,
                debt,
                compensation,
                delay,
                reward,
                total_shares,
            )->Ok_0;
            &&& after.shares == 0
            &&& after.debt == 0
            &&& shares == total_shares ==> after.total_shares == 0 && after.compensation == 0
        }),
{
}

/// A settlement leaves the terms of the pool as its creation fixed them:
/// the reward, the length of a period and the time of creation. It changes
/// the pool's total and compensation and the participant's debt, and
/// nothing else in the two records.
pub proof fn settlement_keeps_the_terms_of_the_pool(
    pool: StakePool,
    debt_data: Debt,
    settlement: Settlement,
)
    ensures
        ({
            let after = recorded(pool, debt_data, settlement);
            &&& after.stake_pool_data.reward == pool.reward
            &&& after.stake_pool_data.period == pool.period
            &&& after.stake_pool_data.genesis_timestamp == pool.genesis_timestamp
            &&& after.stake_pool_data == (StakePool {
                total_shares: settlement.total_shares,
                compensation: settlement.compensation,
                ..pool
            })
            &&& after.debt_data == (Debt { debt: settlement.debt, ..debt_data })
        }),
{
}

} // verus!
