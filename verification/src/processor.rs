//! What each instruction decides and computes, on the records as plain
//! values. Reading and writing accounts, moving tokens and asking the clock
//! are left to the caller.

use crate::codec::radix_values;
use crate::codec::unsigned_image;
use crate::error::AppError;
use crate::error::SeedError;
use crate::helper::pattern::harvested;
use crate::helper::pattern::staked;
use crate::helper::pattern::unstaked;
use crate::helper::pattern::Pattern;
use crate::helper::pubutil::check_seed;
use crate::helper::pubutil::create_program_address;
use crate::helper::pubutil::program_address;
use crate::helper::pubutil::same_key;
use crate::helper::pubutil::seed_checked;
use crate::helper::pubutil::xor;
use crate::helper::pubutil::xored;
use crate::schema::debt::Debt;
use crate::schema::stake_pool::Key;
use crate::schema::stake_pool::StakePool;
use crate::schema::stake_pool::StakePoolState;
use vstd::prelude::*;

verus! {

/// What a change of stake, or a claim, leaves behind.
#[derive(Clone, Copy, Debug, PartialEq, Eq, Structural)]
pub struct Settlement {
    /// The reward units to pay out to the participant.
    pub payout: u64,
    /// The participant's shares after the operation.
    pub shares: u64,
    /// The participant's debt after the operation.
    pub debt: u128,
    /// The pool's total after the operation.
    pub total_shares: u64,
    /// The pool's compensation after the operation.
    pub compensation: i128,
}

/// What an instruction that settles a participant leaves behind: the reward
/// to pay out, the participant's shares, and the two records to write back.
#[derive(Clone, Copy, Debug, PartialEq)]
pub struct Outcome {
    /// The reward units to pay out to the participant.
    pub payout: u64,
    /// The participant's shares after the operation.
    pub shares: u64,
    /// The pool's record after the operation.
    pub stake_pool_data: StakePool,
    /// The participant's debt record after the operation.
    pub debt_data: Debt,
}

/// The outcome of a settlement on the records: the pool takes the new total
/// and compensation, the debt record the new debt, and nothing else changes.
pub open spec fn recorded(pool: StakePool, debt_data: Debt, settlement: Settlement) -> Outcome {
    Outcome {
        payout: settlement.payout,
        shares: settlement.shares,
        stake_pool_data: StakePool {
            total_shares: settlement.total_shares,
            compensation: settlement.compensation,
            ..pool
        },
        debt_data: Debt { debt: settlement.debt, ..debt_data },
    }
}

/// The outcome of a settlement that may have failed.
pub open spec fn recorded_result(
    pool: StakePool,
    debt_data: Debt,
    settlement: Result<Settlement, AppError>,
) -> Result<Outcome, AppError> {
    match settlement {
        Ok(settlement) => Ok(recorded(pool, debt_data, settlement)),
        Err(error) => Err(error),
    }
}

/// The seconds from `genesis` to `now`, as an unsigned 64-bit number. Where
/// `now` lies before `genesis` the difference wraps round.
pub open spec fn elapsed_seconds(genesis: i64, now: i64) -> nat {
    unsigned_image(now - genesis, 8)
}

/// The whole periods from the creation of the pool to `now`.
pub open spec fn elapsed_periods(pool: StakePool, now: i64) -> int {
    elapsed_seconds(pool.genesis_timestamp, now) as int / pool.period as int
}

/// Harvest, unstake and stake in this order: the participant's `shares`
/// become `target`, at `delay` periods after the creation of the pool.
///
/// The harvest runs at the unchanged total and fixes the payout. The unstake
/// takes the participant's shares out of the total. The stake puts `target`
/// shares back. Whatever fails, fails as `Overflow`.
pub open spec fn settled(
    shares: u64,
    target: int,
    debt: u128,
    compensation: i128,
    delay: u64,
    reward: u64,
    total_shares: u64,
) -> Result<Settlement, AppError> {
    match harvested(shares, debt, compensation, delay, reward, total_shares, total_shares) {
        Err(_) => Err(AppError::Overflow),
        Ok(harvest) => {
            let payout = harvest.1 - debt;
            let remaining = total_shares - shares;
            if payout > u64::MAX || remaining < 0 {
                Err(AppError::Overflow)
            } else {
                match unstaked(
                    shares,
                    harvest.1,
                    compensation,
                    delay,
                    reward,
                    total_shares,
                    remaining as u64,
                ) {
                    Err(_) => Err(AppError::Overflow),
                    Ok(detached) => {
                        let total = remaining + target;
                        if target < 0 || total > u64::MAX {
                            Err(AppError::Overflow)
                        } else {
                            match staked(
                                target as u64,
                                detached.1,
                                detached.2,
                                delay,
                                reward,
                                remaining as u64,
                                total as u64,
                            ) {
                                Err(_) => Err(AppError::Overflow),
                                Ok(attached) => Ok(
                                    Settlement {
                                        payout: payout as u64,
                                        shares: attached.0,
                                        debt: attached.1,
                                        total_shares: total as u64,
                                        compensation: attached.2,
                                    },
                                ),
                            }
                        }
                    },
                }
            }
        },
    }
}

/// Whether a stake of `amount` is admitted: the accounts must be the
/// pool's, the pool open, and the amount above zero.
pub open spec fn stake_admitted(
    amount: u64,
    pool: StakePool,
    mint_share: Seq<u8>,
    treasury_token: Seq<u8>,
) -> Result<(), AppError> {
    if pool.mint_share@ != mint_share || pool.treasury_token@ != treasury_token {
        Err(AppError::UnmatchedPool)
    } else if pool.state == StakePoolState::Frozen {
        Err(AppError::FrozenPool)
    } else if amount == 0 {
        Err(AppError::ZeroValue)
    } else {
        Ok(())
    }
}

/// Whether an unstake of `amount` is admitted: the accounts must be the
/// pool's, the pool open, and the amount above zero.
pub open spec fn unstake_admitted(
    amount: u64,
    pool: StakePool,
    mint_share: Seq<u8>,
    treasury_token: Seq<u8>,
    treasury_sen: Seq<u8>,
) -> Result<(), AppError> {
    if pool.mint_share@ != mint_share || pool.treasury_token@ != treasury_token
        || pool.treasury_sen@ != treasury_sen {
        Err(AppError::UnmatchedPool)
    } else if pool.state == StakePoolState::Frozen {
        Err(AppError::FrozenPool)
    } else if amount == 0 {
        Err(AppError::ZeroValue)
    } else {
        Ok(())
    }
}

/// Whether a claim is admitted: the accounts must be the pool's, and the
/// pool open.
pub open spec fn havest_admitted(
    pool: StakePool,
    mint_share: Seq<u8>,
    treasury_sen: Seq<u8>,
) -> Result<(), AppError> {
    if pool.mint_share@ != mint_share || pool.treasury_sen@ != treasury_sen {
        Err(AppError::UnmatchedPool)
    } else if pool.state == StakePoolState::Frozen {
        Err(AppError::FrozenPool)
    } else {
        Ok(())
    }
}

/// What `Processor::stake` returns: the error that refuses the stake, or
/// else the settlement from `shares` to `shares + amount`.
pub open spec fn stake_settled(
    amount: u64,
    pool: StakePool,
    debt_data: Debt,
    shares: u64,
    mint_share: Seq<u8>,
    treasury_token: Seq<u8>,
    now: i64,
) -> Result<Outcome, AppError> {
    match stake_admitted(amount, pool, mint_share, treasury_token) {
        Err(error) => Err(error),
        Ok(_) => recorded_result(
            pool,
            debt_data,
            settled(
                shares,
                shares + amount,
                debt_data.debt,
                pool.compensation,
                elapsed_periods(pool, now) as u64,
                pool.reward,
                pool.total_shares,
            ),
        ),
    }
}

/// What `Processor::unstake` returns: the error that refuses the unstake, or
/// else the settlement from `shares` to `shares - amount`.
pub open spec fn unstake_settled(
    amount: u64,
    pool: StakePool,
    debt_data: Debt,
    shares: u64,
    mint_share: Seq<u8>,
    treasury_token: Seq<u8>,
    treasury_sen: Seq<u8>,
    now: i64,
) -> Result<Outcome, AppError> {
    match unstake_admitted(amount, pool, mint_share, treasury_token, treasury_sen) {
        Err(error) => Err(error),
        Ok(_) => recorded_result(
            pool,
            debt_data,
            settled(
                shares,
                shares - amount,
                debt_data.debt,
                pool.compensation,
                elapsed_periods(pool, now) as u64,
                pool.reward,
                pool.total_shares,
            ),
        ),
    }
}

/// What `Processor::havest` returns: the error that refuses the claim, or
/// else the settlement that leaves `shares` as they are.
pub open spec fn havest_settled(
    pool: StakePool,
    debt_data: Debt,
    shares: u64,
    mint_share: Seq<u8>,
    treasury_sen: Seq<u8>,
    now: i64,
) -> Result<Outcome, AppError> {
    match havest_admitted(pool, mint_share, treasury_sen) {
        Err(error) => Err(error),
        Ok(_) => recorded_result(
            pool,
            debt_data,
            settled(
                shares,
                shares as int,
                debt_data.debt,
                pool.compensation,
                elapsed_periods(pool, now) as u64,
                pool.reward,
                pool.total_shares,
            ),
        ),
    }
}

/// The accounts that a new pool is tied to.
#[derive(Clone, Copy, Debug, PartialEq)]
pub struct PoolAccounts {
    pub owner: Key,
    pub mint_share: Key,
    pub mint_token: Key,
    pub treasury_token: Key,
    pub treasury_sen: Key,
}

/// The pool as `Processor::initialize_stake_pool` sets it up: initialized,
/// created at `now`, with the given reward and period, no shares and no
/// compensation.
pub open spec fn fresh_pool(
    pool: StakePool,
    reward: u64,
    period: u64,
    accounts: PoolAccounts,
    now: i64,
) -> bool {
    &&& pool.owner@ == accounts.owner@
    &&& pool.state == StakePoolState::Initialized
    &&& pool.genesis_timestamp == now
    &&& pool.total_shares == 0
    &&& pool.mint_share@ == accounts.mint_share@
    &&& pool.mint_token@ == accounts.mint_token@
    &&& pool.treasury_token@ == accounts.treasury_token@
    &&& pool.reward == reward
    &&& pool.period == period
    &&& pool.compensation == 0
    &&& pool.treasury_sen@ == accounts.treasury_sen@
}

/// The debt as `Processor::initialize_account` sets it up: initialized, and
/// nothing credited yet.
pub open spec fn fresh_debt(debt: Debt, stake_pool: Seq<u8>, owner: Seq<u8>, account: Seq<u8>) -> bool {
    &&& debt.stake_pool@ == stake_pool
    &&& debt.owner@ == owner
    &&& debt.account@ == account
    &&& debt.debt == 0
    &&& debt.is_initialized
}

/// The decisions of the program, one function for each instruction.
pub struct Processor {}

impl Processor {
    /// The whole periods from the creation of the pool to `now`. Where `now`
    /// lies before the creation, the seconds between the two wrap round as an
    /// unsigned 64-bit difference does.
    pub fn estimate_delay(stake_pool_data: &StakePool, now: i64) -> (delay: u64)
        requires
            stake_pool_data.period > 0,
        ensures
            delay == elapsed_periods(*stake_pool_data, now),
    {
        proof {
            radix_values();
        }
        let difference: i128 = now as i128 - stake_pool_data.genesis_timestamp as i128;
        let seconds: u64 = if difference < 0 {
            (difference + 0x1_0000_0000_0000_0000) as u64
        } else {
            difference as u64
        };
        seconds / stake_pool_data.period
    }

    /// Harvest, unstake and stake in this order: the participant's `shares`
    /// become `target`, at `delay` periods after the creation of the pool.
    ///
    /// The payout is what the harvest credits beyond the recorded `debt`.
    /// Fails with `Overflow` where one of the three steps is rejected, where
    /// the payout does not fit `u64`, where the participant holds more than
    /// the pool's total, and where the new total does not fit `u64`.
    pub fn settle(
        shares: u64,
        target: u64,
        debt: u128,
        compensation: i128,
        delay: u64,
        reward: u64,
        total_shares: u64,
    ) -> (r: Result<Settlement, AppError>)
        ensures
            r == settled(shares, target as int, debt, compensation, delay, reward, total_shares),
    {
        let (shares, harvested_debt, compensation) = match Pattern::fully_havest(
            shares,
            debt,
            compensation,
            delay,
            reward,
            total_shares,
            total_shares,
        ) {
            Ok(ledger) => ledger,
            Err(_) => { return Err(AppError::Overflow); },
        };
        let payout = harvested_debt - debt;
        if payout > u64::MAX as u128 {
            return Err(AppError::Overflow);
        }
        let remaining = match total_shares.checked_sub(shares) {
            Some(value) => value,
            None => { return Err(AppError::Overflow); },
        };
        let (_, detached_debt, compensation) = match Pattern::fully_unstake(
            shares,
            harvested_debt,
            compensation,
            delay,
            reward,
            total_shares,
            remaining,
        ) {
            Ok(ledger) => ledger,
            Err(_) => { return Err(AppError::Overflow); },
        };
        let total = match remaining.checked_add(target) {
            Some(value) => value,
            None => { return Err(AppError::Overflow); },
        };
        let (shares, debt, compensation) = match Pattern::fully_stake(
            target,
            detached_debt,
            compensation,
            delay,
            reward,
            remaining,
            total,
        ) {
            Ok(ledger) => ledger,
            Err(_) => { return Err(AppError::Overflow); },
        };
        Ok(Settlement { payout: payout as u64, shares, debt, total_shares: total, compensation })
    }

    /// Puts a settlement into the records.
    fn record(
        stake_pool_data: &StakePool,
        debt_data: &Debt,
        settlement: Result<Settlement, AppError>,
    ) -> (r: Result<Outcome, AppError>)
        ensures
            r == recorded_result(*stake_pool_data, *debt_data, settlement),
    {
        match settlement {
            Ok(settlement) => {
                let mut pool = *stake_pool_data;
                pool.total_shares = settlement.total_shares;
                pool.compensation = settlement.compensation;
                let mut debt = *debt_data;
                debt.debt = settlement.debt;
                Ok(
                    Outcome {
                        payout: settlement.payout,
                        shares: settlement.shares,
                        stake_pool_data: pool,
                        debt_data: debt,
                    },
                )
            },
            Err(error) => Err(error),
        }
    }

    /// Whether a stake of `amount` is admitted, before any time is asked for
    /// or any number computed.
    ///
    /// Rejected with `UnmatchedPool` where an account is not the pool's, with
    /// `FrozenPool` on a frozen pool, and with `ZeroValue` for no amount.
    pub fn admit_stake(
        amount: u64,
        stake_pool_data: &StakePool,
        mint_share: &Key,
        treasury_token: &Key,
    ) -> (r: Result<(), AppError>)
        ensures
            r == stake_admitted(amount, *stake_pool_data, mint_share@, treasury_token@),
    {
        if !same_key(&stake_pool_data.mint_share, mint_share) || !same_key(
            &stake_pool_data.treasury_token,
            treasury_token,
        ) {
            return Err(AppError::UnmatchedPool);
        }
        if stake_pool_data.is_frozen() {
            return Err(AppError::FrozenPool);
        }
        if amount == 0 {
            return Err(AppError::ZeroValue);
        }
        Ok(())
    }

    /// Whether an unstake of `amount` is admitted, before any time is asked
    /// for or any number computed.
    ///
    /// Rejected as a stake is, with the pool's reward treasury checked too.
    pub fn admit_unstake(
        amount: u64,
        stake_pool_data: &StakePool,
        mint_share: &Key,
        treasury_token: &Key,
        treasury_sen: &Key,
    ) -> (r: Result<(), AppError>)
        ensures
            r == unstake_admitted(
                amount,
                *stake_pool_data,
                mint_share@,
                treasury_token@,
                treasury_sen@,
            ),
    {
        if !same_key(&stake_pool_data.mint_share, mint_share) || !same_key(
            &stake_pool_data.treasury_token,
            treasury_token,
        ) || !same_key(&stake_pool_data.treasury_sen, treasury_sen) {
            return Err(AppError::UnmatchedPool);
        }
        if stake_pool_data.is_frozen() {
            return Err(AppError::FrozenPool);
        }
        if amount == 0 {
            return Err(AppError::ZeroValue);
        }
        Ok(())
    }

    /// Whether a claim is admitted, before any time is asked for or any
    /// number computed.
    ///
    /// Rejected with `UnmatchedPool` where an account is not the pool's, and
    /// with `FrozenPool` on a frozen pool.
    pub fn admit_havest(stake_pool_data: &StakePool, mint_share: &Key, treasury_sen: &Key) -> (r:
        Result<(), AppError>)
        ensures
            r == havest_admitted(*stake_pool_data, mint_share@, treasury_sen@),
    {
        if !same_key(&stake_pool_data.mint_share, mint_share) || !same_key(
            &stake_pool_data.treasury_sen,
            treasury_sen,
        ) {
            return Err(AppError::UnmatchedPool);
        }
        if stake_pool_data.is_frozen() {
            return Err(AppError::FrozenPool);
        }
        Ok(())
    }

    /// Adds `amount` shares to the participant's stake, `now` being the
    /// time of the clock: what to pay out, and the records to write back.
    ///
    /// `shares` is what the participant holds, `debt_data` its debt record,
    /// `mint_share` and `treasury_token` the accounts that were handed in.
    /// Rejected with `UnmatchedPool` where an account is not the pool's, with
    /// `FrozenPool` on a frozen pool, with `ZeroValue` for no amount, and with
    /// `Overflow` where the ledger rejects a step or a number leaves its
    /// range.
    pub fn stake(
        amount: u64,
        stake_pool_data: &StakePool,
        debt_data: &Debt,
        shares: u64,
        mint_share: &Key,
        treasury_token: &Key,
        now: i64,
    ) -> (r: Result<Outcome, AppError>)
        requires
            stake_pool_data.period > 0,
        ensures
            r == stake_settled(
                amount,
                *stake_pool_data,
                *debt_data,
                shares,
                mint_share@,
                treasury_token@,
                now,
            ),
    {
        match Self::admit_stake(amount, stake_pool_data, mint_share, treasury_token) {
            Ok(_) => {},
            Err(error) => { return Err(error); },
        }
        let delay = Self::estimate_delay(stake_pool_data, now);
        let target = match shares.checked_add(amount) {
            Some(value) => value,
            None => { return Err(AppError::Overflow); },
        };
        let settlement = Self::settle(
            shares,
            target,
            debt_data.debt,
            stake_pool_data.compensation,
            delay,
            stake_pool_data.reward,
            stake_pool_data.total_shares,
        );
        Self::record(stake_pool_data, debt_data, settlement)
    }

    /// Takes `amount` shares out of the participant's stake, `now` being the
    /// time of the clock: what to pay out, and the records to write back.
    ///
    /// Rejected as `stake` is, with the pool's reward treasury checked too.
    pub fn unstake(
        amount: u64,
        stake_pool_data: &StakePool,
        debt_data: &Debt,
        shares: u64,
        mint_share: &Key,
        treasury_token: &Key,
        treasury_sen: &Key,
        now: i64,
    ) -> (r: Result<Outcome, AppError>)
        requires
            stake_pool_data.period > 0,
        ensures
            r == unstake_settled(
                amount,
                *stake_pool_data,
                *debt_data,
                shares,
                mint_share@,
                treasury_token@,
                treasury_sen@,
                now,
            ),
    {
        match Self::admit_unstake(
            amount,
            stake_pool_data,
            mint_share,
            treasury_token,
            treasury_sen,
        ) {
            Ok(_) => {},
            Err(error) => { return Err(error); },
        }
        let delay = Self::estimate_delay(stake_pool_data, now);
        let target = match shares.checked_sub(amount) {
            Some(value) => value,
            None => { return Err(AppError::Overflow); },
        };
        let settlement = Self::settle(
            shares,
            target,
            debt_data.debt,
            stake_pool_data.compensation,
            delay,
            stake_pool_data.reward,
            stake_pool_data.total_shares,
        );
        Self::record(stake_pool_data, debt_data, settlement)
    }

    /// Claims the reward that the participant's stake has earned up to `now`,
    /// and leaves the stake as it is: what to pay out, and the records to
    /// write back.
    ///
    /// Rejected with `UnmatchedPool` where an account is not the pool's, with
    /// `FrozenPool` on a frozen pool, and with `Overflow` where the ledger
    /// rejects a step or a number leaves its range.
    pub fn havest(
        stake_pool_data: &StakePool,
        debt_data: &Debt,
        shares: u64,
        mint_share: &Key,
        treasury_sen: &Key,
        now: i64,
    ) -> (r: Result<Outcome, AppError>)
        requires
            stake_pool_data.period > 0,
        ensures
            r == havest_settled(
                *stake_pool_data,
                *debt_data,
                shares,
                mint_share@,
                treasury_sen@,
                now,
            ),
    {
        match Self::admit_havest(stake_pool_data, mint_share, treasury_sen) {
            Ok(_) => {},
            Err(error) => { return Err(error); },
        }
        let delay = Self::estimate_delay(stake_pool_data, now);
        let settlement = Self::settle(
            shares,
            shares,
            debt_data.debt,
            stake_pool_data.compensation,
            delay,
            stake_pool_data.reward,
            stake_pool_data.total_shares,
        );
        Self::record(stake_pool_data, debt_data, settlement)
    }

    /// Sets up a pool that rewards `reward` units per share and period, a
    /// period being `period` seconds.
    ///
    /// `proof_key` must be the exclusive or of the program's, the pool's and
    /// the treasurer's address. Rejected with `ConstructorOnce` where the pool
    /// or its share mint was set up before, with `UnmatchedPool` on another
    /// `proof_key`, and with `ZeroValue` for no reward or a period of no
    /// length: a pool that exists has a period above zero.
    pub fn initialize_stake_pool(
        reward: u64,
        period: u64,
        stake_pool_data: &StakePool,
        mint_share_initialized: bool,
        program_id: &Key,
        stake_pool: &Key,
        treasurer: &Key,
        proof_key: &Key,
        accounts: &PoolAccounts,
        now: i64,
    ) -> (r: Result<StakePool, AppError>)
        ensures
            stake_pool_data.state != StakePoolState::Uninitialized || mint_share_initialized
                ==> r == Err::<StakePool, AppError>(AppError::ConstructorOnce),
            stake_pool_data.state == StakePoolState::Uninitialized && !mint_share_initialized
                && proof_key@ != xored(program_id@, xored(stake_pool@, treasurer@)) ==> r == Err::<
                StakePool,
                AppError,
            >(AppError::UnmatchedPool),
            stake_pool_data.state == StakePoolState::Uninitialized && !mint_share_initialized
                && proof_key@ == xored(program_id@, xored(stake_pool@, treasurer@)) && (reward == 0
                || period == 0) ==> r == Err::<StakePool, AppError>(AppError::ZeroValue),
            stake_pool_data.state == StakePoolState::Uninitialized && !mint_share_initialized
                && proof_key@ == xored(program_id@, xored(stake_pool@, treasurer@)) && reward != 0
                && period != 0 ==> r is Ok && fresh_pool(r->Ok_0, reward, period, *accounts, now),
            r is Ok ==> r->Ok_0.period > 0 && r->Ok_0.reward > 0,
    {
        if stake_pool_data.is_initialized() || mint_share_initialized {
            return Err(AppError::ConstructorOnce);
        }
        let inner = xor(stake_pool, treasurer);
        let expected = xor(program_id, &inner);
        if !same_key(proof_key, &expected) {
            return Err(AppError::UnmatchedPool);
        }
        if reward == 0 || period == 0 {
            return Err(AppError::ZeroValue);
        }
        Ok(
            StakePool {
                owner: accounts.owner,
                state: StakePoolState::Initialized,
                genesis_timestamp: now,
                total_shares: 0,
                mint_share: accounts.mint_share,
                mint_token: accounts.mint_token,
                treasury_token: accounts.treasury_token,
                reward,
                period,
                compensation: 0,
                treasury_sen: accounts.treasury_sen,
            },
        )
    }

    /// Whether `debt_key` is the address that was derived for the
    /// participant's debt record. Rejected with `InvalidOwner` where it is
    /// not.
    pub fn is_debt_address(derived: &Key, debt_key: &Key) -> (r: Result<(), AppError>)
        ensures
            r == if derived@ == debt_key@ {
                Ok::<(), AppError>(())
            } else {
                Err::<(), AppError>(AppError::InvalidOwner)
            },
    {
        if !same_key(derived, debt_key) {
            return Err(AppError::InvalidOwner);
        }
        Ok(())
    }

    /// The lamports that the debt record still lacks to be kept: the least
    /// balance, which is at least one, less what the account holds.
    pub fn required_lamports(minimum_balance: u64, lamports: u64) -> (r: u64)
        ensures
            r == if minimum_balance > 1 {
                if minimum_balance > lamports {
                    minimum_balance - lamports
                } else {
                    0
                }
            } else {
                if lamports == 0 {
                    1
                } else {
                    0
                }
            },
    {
        let least = if minimum_balance > 1 {
            minimum_balance
        } else {
            1
        };
        if least > lamports {
            least - lamports
        } else {
            0
        }
    }

    /// Sets up the debt record of a participant.
    ///
    /// Rejected with `ConstructorOnce` where the record was set up before.
    pub fn initialize_account(debt_data: &Debt, stake_pool: &Key, owner: &Key, account: &Key) -> (r:
        Result<Debt, AppError>)
        ensures
            debt_data.is_initialized ==> r == Err::<Debt, AppError>(AppError::ConstructorOnce),
            !debt_data.is_initialized ==> r is Ok && fresh_debt(
                r->Ok_0,
                stake_pool@,
                owner@,
                account@,
            ),
    {
        if debt_data.is_initialized() {
            return Err(AppError::ConstructorOnce);
        }
        Ok(
            Debt {
                stake_pool: *stake_pool,
                owner: *owner,
                account: *account,
                debt: 0,
                is_initialized: true,
            },
        )
    }

    /// The pool, frozen. Nothing else changes.
    pub fn freeze_stake_pool(stake_pool_data: StakePool) -> (r: StakePool)
        ensures
            r == (StakePool { state: StakePoolState::Frozen, ..stake_pool_data }),
    {
        let mut pool = stake_pool_data;
        pool.state = StakePoolState::Frozen;
        pool
    }

    /// The pool, open again. Nothing else changes.
    pub fn thaw_stake_pool(stake_pool_data: StakePool) -> (r: StakePool)
        ensures
            r == (StakePool { state: StakePoolState::Initialized, ..stake_pool_data }),
    {
        let mut pool = stake_pool_data;
        pool.state = StakePoolState::Initialized;
        pool
    }

    /// The pool in the hands of `new_owner`. Nothing else changes.
    pub fn transfer_stake_pool_ownership(stake_pool_data: StakePool, new_owner: &Key) -> (r:
        StakePool)
        ensures
            r == (StakePool { owner: *new_owner, ..stake_pool_data }),
    {
        let mut pool = stake_pool_data;
        pool.owner = *new_owner;
        pool
    }

    /// Whether `amount` may be paid into the pool's reward treasury.
    ///
    /// Rejected with `UnmatchedPool` where `treasury_sen` is not the pool's,
    /// and with `ZeroValue` for no amount.
    pub fn seed(amount: u64, stake_pool_data: &StakePool, treasury_sen: &Key) -> (r: Result<
        (),
        AppError,
    >)
        ensures
            r == if stake_pool_data.treasury_sen@ != treasury_sen@ {
                Err::<(), AppError>(AppError::UnmatchedPool)
            } else if amount == 0 {
                Err::<(), AppError>(AppError::ZeroValue)
            } else {
                Ok::<(), AppError>(())
            },
    {
        if !same_key(&stake_pool_data.treasury_sen, treasury_sen) {
            return Err(AppError::UnmatchedPool);
        }
        if amount == 0 {
            return Err(AppError::ZeroValue);
        }
        Ok(())
    }

    /// Whether `amount` may be taken out of the pool's reward treasury.
    ///
    /// Rejected with `UnmatchedPool` where `treasury_sen` is not the pool's,
    /// and with `ZeroValue` for no amount.
    pub fn unseed(amount: u64, stake_pool_data: &StakePool, treasury_sen: &Key) -> (r: Result<
        (),
        AppError,
    >)
        ensures
            r == if stake_pool_data.treasury_sen@ != treasury_sen@ {
                Err::<(), AppError>(AppError::UnmatchedPool)
            } else if amount == 0 {
                Err::<(), AppError>(AppError::ZeroValue)
            } else {
                Ok::<(), AppError>(())
            },
    {
        if !same_key(&stake_pool_data.treasury_sen, treasury_sen) {
            return Err(AppError::UnmatchedPool);
        }
        if amount == 0 {
            return Err(AppError::ZeroValue);
        }
        Ok(())
    }

    /// Whether every account belongs to the program: `owners` holds the
    /// owner of each. Rejected with `IncorrectProgramId` where one does not.
    pub fn is_program(program_id: &Key, owners: &[Key]) -> (r: Result<(), AppError>)
        ensures
            r == if forall|i: int| 0 <= i < owners@.len() ==> owners@[i]@ == program_id@ {
                Ok::<(), AppError>(())
            } else {
                Err::<(), AppError>(AppError::IncorrectProgramId)
            },
    {
        let count = owners.len();
        let mut i: usize = 0;
        while i < count
            invariant
                i <= count == owners@.len(),
                forall|j: int| 0 <= j < i ==> owners@[j]@ == program_id@,
            decreases count - i,
        {
            if !same_key(&owners[i], program_id) {
                return Err(AppError::IncorrectProgramId);
            }
            i += 1;
        }
        Ok(())
    }

    /// Whether every account signed: `signers` holds the flag of each.
    /// Rejected with `InvalidOwner` where one did not.
    pub fn is_signer(signers: &[bool]) -> (r: Result<(), AppError>)
        ensures
            r == if forall|i: int| 0 <= i < signers@.len() ==> signers@[i] {
                Ok::<(), AppError>(())
            } else {
                Err::<(), AppError>(AppError::InvalidOwner)
            },
    {
        let count = signers.len();
        let mut i: usize = 0;
        while i < count
            invariant
                i <= count == signers@.len(),
                forall|j: int| 0 <= j < i ==> signers@[j],
            decreases count - i,
        {
            if !signers[i] {
                return Err(AppError::InvalidOwner);
            }
            i += 1;
        }
        Ok(())
    }

    /// Whether `owner` owns the pool. Rejected with `InvalidOwner` where it
    /// does not.
    pub fn is_stake_pool_owner(owner: &Key, stake_pool_data: &StakePool) -> (r: Result<
        (),
        AppError,
    >)
        ensures
            r == if stake_pool_data.owner@ == owner@ {
                Ok::<(), AppError>(())
            } else {
                Err::<(), AppError>(AppError::InvalidOwner)
            },
    {
        if !same_key(&stake_pool_data.owner, owner) {
            return Err(AppError::InvalidOwner);
        }
        Ok(())
    }

    /// Whether the debt record is that of `owner` in the pool `stake_pool`
    /// with the share account `share`. Rejected with `InvalidOwner` where one
    /// of the three differs.
    pub fn is_debt_owner(owner: &Key, debt_data: &Debt, stake_pool: &Key, share: &Key) -> (r:
        Result<(), AppError>)
        ensures
            r == if debt_data.stake_pool@ == stake_pool@ && debt_data.owner@ == owner@
                && debt_data.account@ == share@ {
                Ok::<(), AppError>(())
            } else {
                Err::<(), AppError>(AppError::InvalidOwner)
            },
    {
        if !same_key(&debt_data.stake_pool, stake_pool) || !same_key(&debt_data.owner, owner)
            || !same_key(&debt_data.account, share) {
            return Err(AppError::InvalidOwner);
        }
        Ok(())
    }

    /// The pool's address as the seed of its treasurer, where the program
    /// address that it derives is `expected`.
    ///
    /// Fails with `InvalidSeeds` where the seed derives another address, and
    /// with the error of the derivation where it derives none.
    pub fn safe_seed(seed: &Key, expected: &Key, program_id: &Key) -> (r: Result<Key, SeedError>)
        ensures
            seed_checked(r, seed@, program_address(seed@, program_id@), expected@),
    {
        let derived = create_program_address(seed, program_id);
        check_seed(seed, derived, expected)
    }
}

} // verus!
