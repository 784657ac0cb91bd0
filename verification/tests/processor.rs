use farming::error::AppError;
use farming::helper::pubutil::same_key;
use farming::helper::pubutil::xor;
use farming::error::SeedError;
use farming::helper::pubutil::check_seed;
use farming::processor::Outcome;
use farming::processor::PoolAccounts;
use farming::processor::Processor;
use solana_program::pubkey::Pubkey;
use farming::schema::debt::Debt;
use farming::schema::stake_pool::Key;
use farming::schema::stake_pool::StakePool;
use farming::schema::stake_pool::StakePoolState;

const E18: i128 = 1_000_000_000_000_000_000;
const OWNER: Key = [1; 32];
const MINT_SHARE: Key = [2; 32];
const MINT_TOKEN: Key = [3; 32];
const TREASURY_TOKEN: Key = [4; 32];
const TREASURY_SEN: Key = [5; 32];
const POOL: Key = [6; 32];
const SHARE: Key = [7; 32];
const OTHER: Key = [9; 32];

fn pool(total_shares: u64, compensation: i128) -> StakePool {
    StakePool {
        owner: OWNER,
        state: StakePoolState::Initialized,
        genesis_timestamp: 1000,
        total_shares,
        mint_share: MINT_SHARE,
        mint_token: MINT_TOKEN,
        treasury_token: TREASURY_TOKEN,
        reward: 100,
        period: 10,
        compensation,
        treasury_sen: TREASURY_SEN,
    }
}

fn debt(debt: u128) -> Debt {
    Debt { stake_pool: POOL, owner: OWNER, account: SHARE, debt, is_initialized: true }
}

/// The numbers of an outcome, for the tests that look at nothing else.
#[derive(Clone, Copy, Debug, PartialEq)]
struct Settlement {
    payout: u64,
    shares: u64,
    debt: u128,
    total_shares: u64,
    compensation: i128,
}

fn numbers(outcome: Result<Outcome, AppError>) -> Result<Settlement, AppError> {
    outcome.map(|outcome| Settlement {
        payout: outcome.payout,
        shares: outcome.shares,
        debt: outcome.debt_data.debt,
        total_shares: outcome.stake_pool_data.total_shares,
        compensation: outcome.stake_pool_data.compensation,
    })
}

fn stake(
    amount: u64,
    pool: &StakePool,
    owed: u128,
    shares: u64,
    now: i64,
) -> Result<Settlement, AppError> {
    numbers(Processor::stake(amount, pool, &debt(owed), shares, &MINT_SHARE, &TREASURY_TOKEN, now))
}

fn unstake(
    amount: u64,
    pool: &StakePool,
    owed: u128,
    shares: u64,
    now: i64,
) -> Result<Settlement, AppError> {
    numbers(Processor::unstake(
        amount,
        pool,
        &debt(owed),
        shares,
        &MINT_SHARE,
        &TREASURY_TOKEN,
        &TREASURY_SEN,
        now,
    ))
}

fn havest(pool: &StakePool, owed: u128, shares: u64, now: i64) -> Result<Settlement, AppError> {
    numbers(Processor::havest(pool, &debt(owed), shares, &MINT_SHARE, &TREASURY_SEN, now))
}

#[test]
fn outcome_changes_three_fields_of_the_records() {
    let before = pool(20, 5 * E18);
    let owed = debt(150);
    let expected = Outcome {
        payout: 50,
        shares: 6,
        stake_pool_data: StakePool {
            total_shares: 16,
            compensation: 1_250_000_000_000_000_000,
            ..before
        },
        debt_data: Debt { debt: 120, ..owed },
    };
    assert_eq!(
        Processor::unstake(
            4,
            &before,
            &owed,
            10,
            &MINT_SHARE,
            &TREASURY_TOKEN,
            &TREASURY_SEN,
            1030
        ),
        Ok(expected)
    );
    let expected = Outcome {
        payout: 50,
        shares: 10,
        stake_pool_data: before,
        debt_data: Debt { debt: 200, ..owed },
    };
    assert_eq!(
        Processor::havest(&before, &owed, 10, &MINT_SHARE, &TREASURY_SEN, 1030),
        Ok(expected)
    );
    let expected = Outcome {
        payout: 0,
        shares: 10,
        stake_pool_data: StakePool { total_shares: 10, ..pool(0, 0) },
        debt_data: debt(0),
    };
    assert_eq!(
        Processor::stake(10, &pool(0, 0), &debt(0), 0, &MINT_SHARE, &TREASURY_TOKEN, 1000),
        Ok(expected)
    );
}

#[test]
fn delay_counts_whole_periods() {
    let pool = pool(0, 0);
    assert_eq!(Processor::estimate_delay(&pool, 1000), 0);
    assert_eq!(Processor::estimate_delay(&pool, 1009), 0);
    assert_eq!(Processor::estimate_delay(&pool, 1010), 1);
    assert_eq!(Processor::estimate_delay(&pool, 1019), 1);
    assert_eq!(Processor::estimate_delay(&pool, 1025), 2);
    assert_eq!(Processor::estimate_delay(&pool, 101_000), 10_000);
}

#[test]
fn delay_with_a_negative_genesis() {
    let mut pool = pool(0, 0);
    pool.genesis_timestamp = -95;
    assert_eq!(Processor::estimate_delay(&pool, 5), 10);
    pool.genesis_timestamp = i64::MIN;
    pool.period = 1;
    assert_eq!(Processor::estimate_delay(&pool, i64::MAX), u64::MAX);
    assert_eq!(Processor::estimate_delay(&pool, 0), 1 << 63);
}

#[test]
fn delay_before_genesis_wraps_round() {
    let mut pool = pool(0, 0);
    assert_eq!(Processor::estimate_delay(&pool, 999), u64::MAX / 10);
    pool.period = 1;
    assert_eq!(Processor::estimate_delay(&pool, 999), u64::MAX);
    assert_eq!(Processor::estimate_delay(&pool, 0), u64::MAX - 999);
    pool.genesis_timestamp = i64::MAX;
    assert_eq!(Processor::estimate_delay(&pool, i64::MIN), 1);
}

#[test]
fn first_stake_into_a_new_pool() {
    assert_eq!(
        stake(10, &pool(0, 0), 0, 0, 1000),
        Ok(Settlement { payout: 0, shares: 10, debt: 0, total_shares: 10, compensation: 0 })
    );
}

#[test]
fn harvest_of_a_single_participant() {
    assert_eq!(
        havest(&pool(10, 0), 0, 10, 1010),
        Ok(Settlement { payout: 100, shares: 10, debt: 100, total_shares: 10, compensation: 0 })
    );
}

#[test]
fn harvest_of_a_new_pool_pays_nothing() {
    assert_eq!(
        havest(&pool(0, 0), 0, 0, 1000),
        Ok(Settlement { payout: 0, shares: 0, debt: 0, total_shares: 0, compensation: 0 })
    );
    assert_eq!(
        havest(&pool(0, 0), 0, 0, 5000),
        Ok(Settlement { payout: 0, shares: 0, debt: 0, total_shares: 0, compensation: 0 })
    );
}

#[test]
fn second_participant_enters() {
    assert_eq!(
        stake(10, &pool(10, 0), 0, 0, 1010),
        Ok(Settlement {
            payout: 0,
            shares: 10,
            debt: 100,
            total_shares: 20,
            compensation: 5 * E18,
        })
    );
}

#[test]
fn both_participants_harvest_half_each() {
    let expected = Settlement {
        payout: 50,
        shares: 10,
        debt: 150,
        total_shares: 20,
        compensation: 5 * E18,
    };
    assert_eq!(havest(&pool(20, 5 * E18), 100, 10, 1025), Ok(expected));
    // Harvesting again in the same period pays nothing.
    assert_eq!(
        havest(&pool(20, 5 * E18), 150, 10, 1029),
        Ok(Settlement { payout: 0, ..expected })
    );
}

#[test]
fn unstake_pays_and_shrinks_the_pool() {
    assert_eq!(
        unstake(4, &pool(20, 5 * E18), 150, 10, 1030),
        Ok(Settlement {
            payout: 50,
            shares: 6,
            debt: 120,
            total_shares: 16,
            compensation: 1_250_000_000_000_000_000,
        })
    );
}

#[test]
fn unstake_of_one_spares_the_other() {
    let after = unstake(4, &pool(20, 5 * E18), 150, 10, 1030).unwrap();
    // The other participant has accrued 200 at the third period, before and
    // after the change.
    assert_eq!(havest(&pool(20, 5 * E18), 150, 10, 1030).unwrap().debt, 200);
    let pool_after = pool(after.total_shares, after.compensation);
    assert_eq!(
        havest(&pool_after, 150, 10, 1030),
        Ok(Settlement {
            payout: 50,
            shares: 10,
            debt: 200,
            total_shares: 16,
            compensation: 1_250_000_000_000_000_000,
        })
    );
    assert_eq!(havest(&pool_after, 150, 10, 1040).unwrap().payout, 112);
}

#[test]
fn stake_on_top_of_a_stake() {
    assert_eq!(
        stake(3, &pool(16, 1_250_000_000_000_000_000), 150, 10, 1050),
        Ok(Settlement {
            payout: 175,
            shares: 13,
            debt: 422,
            total_shares: 19,
            compensation: 6_184_210_526_315_789_475,
        })
    );
}

#[test]
fn unstake_of_everything_empties_the_pool() {
    assert_eq!(
        unstake(10, &pool(10, 0), 100, 10, 1020),
        Ok(Settlement { payout: 100, shares: 0, debt: 0, total_shares: 0, compensation: 0 })
    );
}

#[test]
fn settlement_keeps_the_shares_of_the_others() {
    let before = pool(20, 5 * E18);
    let after = stake(7, &before, 150, 10, 1030).unwrap();
    assert_eq!(after.shares, 17);
    assert_eq!(after.total_shares - after.shares, before.total_shares - 10);
    let after = unstake(7, &before, 150, 10, 1030).unwrap();
    assert_eq!(after.shares, 3);
    assert_eq!(after.total_shares - after.shares, before.total_shares - 10);
    let after = havest(&before, 150, 10, 1030).unwrap();
    assert_eq!(after.shares, 10);
    assert_eq!(after.total_shares, before.total_shares);
}

#[test]
fn stake_rejects_foreign_accounts() {
    let pool = pool(10, 0);
    assert_eq!(
        Processor::stake(10, &pool, &debt(0), 0, &OTHER, &TREASURY_TOKEN, 1010),
        Err(AppError::UnmatchedPool)
    );
    assert_eq!(
        Processor::stake(10, &pool, &debt(0), 0, &MINT_SHARE, &OTHER, 1010),
        Err(AppError::UnmatchedPool)
    );
}

#[test]
fn unstake_rejects_foreign_accounts() {
    let pool = pool(10, 0);
    let owed = debt(100);
    assert_eq!(
        Processor::unstake(1, &pool, &owed, 10, &OTHER, &TREASURY_TOKEN, &TREASURY_SEN, 1010),
        Err(AppError::UnmatchedPool)
    );
    assert_eq!(
        Processor::unstake(1, &pool, &owed, 10, &MINT_SHARE, &OTHER, &TREASURY_SEN, 1010),
        Err(AppError::UnmatchedPool)
    );
    assert_eq!(
        Processor::unstake(1, &pool, &owed, 10, &MINT_SHARE, &TREASURY_TOKEN, &OTHER, 1010),
        Err(AppError::UnmatchedPool)
    );
}

#[test]
fn havest_rejects_foreign_accounts() {
    let pool = pool(10, 0);
    assert_eq!(
        Processor::havest(&pool, &debt(0), 10, &OTHER, &TREASURY_SEN, 1010),
        Err(AppError::UnmatchedPool)
    );
    assert_eq!(
        Processor::havest(&pool, &debt(0), 10, &MINT_SHARE, &OTHER, 1010),
        Err(AppError::UnmatchedPool)
    );
}

#[test]
fn frozen_pool_rejects_every_settlement() {
    let mut pool = pool(10, 0);
    pool.state = StakePoolState::Frozen;
    assert_eq!(stake(1, &pool, 0, 10, 1010), Err(AppError::FrozenPool));
    assert_eq!(unstake(1, &pool, 0, 10, 1010), Err(AppError::FrozenPool));
    assert_eq!(havest(&pool, 0, 10, 1010), Err(AppError::FrozenPool));
    // A foreign account is reported first.
    assert_eq!(
        Processor::stake(1, &pool, &debt(0), 10, &OTHER, &TREASURY_TOKEN, 1010),
        Err(AppError::UnmatchedPool)
    );
}

#[test]
fn zero_amount_is_rejected() {
    assert_eq!(stake(0, &pool(10, 0), 0, 10, 1010), Err(AppError::ZeroValue));
    assert_eq!(unstake(0, &pool(10, 0), 0, 10, 1010), Err(AppError::ZeroValue));
}

#[test]
fn unstake_of_more_than_held_overflows() {
    assert_eq!(unstake(11, &pool(20, 5 * E18), 150, 10, 1025), Err(AppError::Overflow));
}

#[test]
fn stake_beyond_the_width_of_shares_overflows() {
    assert_eq!(stake(u64::MAX, &pool(1, 0), 0, 1, 1000), Err(AppError::Overflow));
    // The participant's shares fit, the pool's total does not.
    assert_eq!(stake(u64::MAX, &pool(1, 0), 0, 0, 1000), Err(AppError::Overflow));
}

#[test]
fn shares_beyond_the_total_overflow() {
    assert_eq!(havest(&pool(5, 0), 0, 10, 1010), Err(AppError::Overflow));
}

#[test]
fn recorded_debt_above_the_accrued_overflows() {
    assert_eq!(havest(&pool(20, 5 * E18), 200, 10, 1025), Err(AppError::Overflow));
}

#[test]
fn payout_beyond_its_width_overflows() {
    let mut pool = pool(1, 0);
    pool.reward = u64::MAX;
    assert_eq!(
        havest(&pool, 0, 1, 1010),
        Ok(Settlement {
            payout: u64::MAX,
            shares: 1,
            debt: u64::MAX as u128,
            total_shares: 1,
            compensation: 0,
        })
    );
    assert_eq!(havest(&pool, 0, 1, 1020), Err(AppError::Overflow));
}

#[test]
fn keys_compare_by_their_bytes() {
    assert!(same_key(&OWNER, &[1; 32]));
    assert!(!same_key(&OWNER, &OTHER));
    let mut near = OWNER;
    near[31] = 0;
    assert!(!same_key(&OWNER, &near));
    let mut near = OWNER;
    near[0] = 0;
    assert!(!same_key(&OWNER, &near));
}

#[test]
fn xor_works_byte_by_byte() {
    let mut a = [0u8; 32];
    let mut b = [0u8; 32];
    for i in 0..32 {
        a[i] = i as u8;
        b[i] = 0xf0;
    }
    let c = xor(&a, &b);
    for i in 0..32 {
        assert_eq!(c[i], i as u8 ^ 0xf0);
    }
    assert_eq!(xor(&a, &a), [0; 32]);
    assert_eq!(xor(&c, &b), a);
}

fn accounts() -> PoolAccounts {
    PoolAccounts {
        owner: OWNER,
        mint_share: MINT_SHARE,
        mint_token: MINT_TOKEN,
        treasury_token: TREASURY_TOKEN,
        treasury_sen: TREASURY_SEN,
    }
}

fn blank_pool() -> StakePool {
    StakePool {
        owner: [0; 32],
        state: StakePoolState::Uninitialized,
        genesis_timestamp: 0,
        total_shares: 0,
        mint_share: [0; 32],
        mint_token: [0; 32],
        treasury_token: [0; 32],
        reward: 0,
        period: 0,
        compensation: 0,
        treasury_sen: [0; 32],
    }
}

const PROGRAM: Key = [0x10; 32];
const TREASURER: Key = [0x03; 32];

fn proof_key() -> Key {
    // 0x10 ^ 0x06 ^ 0x03
    [0x15; 32]
}

#[test]
fn initialize_stake_pool_sets_up_a_pool() {
    let pool = Processor::initialize_stake_pool(
        100,
        10,
        &blank_pool(),
        false,
        &PROGRAM,
        &POOL,
        &TREASURER,
        &proof_key(),
        &accounts(),
        1000,
    );
    assert_eq!(pool, Ok(self::pool(0, 0)));
}

#[test]
fn initialize_stake_pool_only_once() {
    for state in [StakePoolState::Initialized, StakePoolState::Frozen] {
        let mut existing = blank_pool();
        existing.state = state;
        assert_eq!(
            Processor::initialize_stake_pool(
                100,
                10,
                &existing,
                false,
                &PROGRAM,
                &POOL,
                &TREASURER,
                &proof_key(),
                &accounts(),
                1000,
            ),
            Err(AppError::ConstructorOnce)
        );
    }
    assert_eq!(
        Processor::initialize_stake_pool(
            100,
            10,
            &blank_pool(),
            true,
            &PROGRAM,
            &POOL,
            &TREASURER,
            &proof_key(),
            &accounts(),
            1000,
        ),
        Err(AppError::ConstructorOnce)
    );
}

#[test]
fn initialize_stake_pool_wants_its_proof() {
    assert_eq!(
        Processor::initialize_stake_pool(
            100,
            10,
            &blank_pool(),
            false,
            &PROGRAM,
            &POOL,
            &TREASURER,
            &OTHER,
            &accounts(),
            1000,
        ),
        Err(AppError::UnmatchedPool)
    );
}

#[test]
fn initialize_stake_pool_wants_a_reward() {
    assert_eq!(
        Processor::initialize_stake_pool(
            0,
            10,
            &blank_pool(),
            false,
            &PROGRAM,
            &POOL,
            &TREASURER,
            &proof_key(),
            &accounts(),
            1000,
        ),
        Err(AppError::ZeroValue)
    );
    // A wrong proof is reported first.
    assert_eq!(
        Processor::initialize_stake_pool(
            0,
            10,
            &blank_pool(),
            false,
            &PROGRAM,
            &POOL,
            &TREASURER,
            &OTHER,
            &accounts(),
            1000,
        ),
        Err(AppError::UnmatchedPool)
    );
}

#[test]
fn initialize_stake_pool_wants_a_period() {
    // A period of no length is rejected, and no record comes back.
    assert_eq!(
        Processor::initialize_stake_pool(
            5,
            0,
            &blank_pool(),
            false,
            &PROGRAM,
            &POOL,
            &TREASURER,
            &proof_key(),
            &accounts(),
            1000,
        ),
        Err(AppError::ZeroValue)
    );
    assert_eq!(
        Processor::initialize_stake_pool(
            0,
            0,
            &blank_pool(),
            false,
            &PROGRAM,
            &POOL,
            &TREASURER,
            &proof_key(),
            &accounts(),
            1000,
        ),
        Err(AppError::ZeroValue)
    );
    // The shortest period is accepted.
    let pool = Processor::initialize_stake_pool(
        5,
        1,
        &blank_pool(),
        false,
        &PROGRAM,
        &POOL,
        &TREASURER,
        &proof_key(),
        &accounts(),
        1000,
    )
    .unwrap();
    assert_eq!(pool.period, 1);
    assert_eq!(pool.reward, 5);
    assert_eq!(Processor::estimate_delay(&pool, 1007), 7);
    // A wrong proof and a pool that exists are reported first.
    assert_eq!(
        Processor::initialize_stake_pool(
            5,
            0,
            &blank_pool(),
            false,
            &PROGRAM,
            &POOL,
            &TREASURER,
            &OTHER,
            &accounts(),
            1000,
        ),
        Err(AppError::UnmatchedPool)
    );
    assert_eq!(
        Processor::initialize_stake_pool(
            5,
            0,
            &self::pool(0, 0),
            false,
            &PROGRAM,
            &POOL,
            &TREASURER,
            &proof_key(),
            &accounts(),
            1000,
        ),
        Err(AppError::ConstructorOnce)
    );
}

#[test]
fn a_pool_that_was_set_up_keeps_its_period() {
    let pool = Processor::initialize_stake_pool(
        100,
        10,
        &blank_pool(),
        false,
        &PROGRAM,
        &POOL,
        &TREASURER,
        &proof_key(),
        &accounts(),
        1000,
    )
    .unwrap();
    let staked =
        Processor::stake(10, &pool, &debt(0), 0, &MINT_SHARE, &TREASURY_TOKEN, 1000).unwrap();
    assert_eq!(staked.stake_pool_data.period, 10);
    assert_eq!(staked.stake_pool_data.reward, 100);
    assert_eq!(staked.stake_pool_data.genesis_timestamp, 1000);
    let frozen = Processor::freeze_stake_pool(staked.stake_pool_data);
    assert_eq!(frozen.period, 10);
    let thawed = Processor::thaw_stake_pool(frozen);
    assert_eq!(thawed.period, 10);
    let handed_on = Processor::transfer_stake_pool_ownership(thawed, &OTHER);
    assert_eq!(handed_on.period, 10);
    let claimed = Processor::havest(
        &thawed,
        &staked.debt_data,
        staked.shares,
        &MINT_SHARE,
        &TREASURY_SEN,
        1010,
    )
    .unwrap();
    assert_eq!(claimed.stake_pool_data.period, 10);
    assert_eq!(claimed.payout, 100);
}

#[test]
fn admission_comes_before_any_number() {
    let open = pool(10, 0);
    assert_eq!(Processor::admit_stake(1, &open, &MINT_SHARE, &TREASURY_TOKEN), Ok(()));
    assert_eq!(
        Processor::admit_stake(1, &open, &OTHER, &TREASURY_TOKEN),
        Err(AppError::UnmatchedPool)
    );
    assert_eq!(
        Processor::admit_stake(1, &open, &MINT_SHARE, &OTHER),
        Err(AppError::UnmatchedPool)
    );
    assert_eq!(
        Processor::admit_stake(0, &open, &MINT_SHARE, &TREASURY_TOKEN),
        Err(AppError::ZeroValue)
    );
    assert_eq!(
        Processor::admit_unstake(1, &open, &MINT_SHARE, &TREASURY_TOKEN, &TREASURY_SEN),
        Ok(())
    );
    assert_eq!(
        Processor::admit_unstake(1, &open, &MINT_SHARE, &TREASURY_TOKEN, &OTHER),
        Err(AppError::UnmatchedPool)
    );
    assert_eq!(
        Processor::admit_unstake(0, &open, &MINT_SHARE, &TREASURY_TOKEN, &TREASURY_SEN),
        Err(AppError::ZeroValue)
    );
    assert_eq!(Processor::admit_havest(&open, &MINT_SHARE, &TREASURY_SEN), Ok(()));
    assert_eq!(
        Processor::admit_havest(&open, &MINT_SHARE, &OTHER),
        Err(AppError::UnmatchedPool)
    );
    let frozen = Processor::freeze_stake_pool(open);
    assert_eq!(
        Processor::admit_stake(1, &frozen, &MINT_SHARE, &TREASURY_TOKEN),
        Err(AppError::FrozenPool)
    );
    assert_eq!(
        Processor::admit_unstake(1, &frozen, &MINT_SHARE, &TREASURY_TOKEN, &TREASURY_SEN),
        Err(AppError::FrozenPool)
    );
    assert_eq!(
        Processor::admit_havest(&frozen, &MINT_SHARE, &TREASURY_SEN),
        Err(AppError::FrozenPool)
    );
    // A record with a period of zero is refused like any other.
    let mut damaged = frozen;
    damaged.period = 0;
    assert_eq!(
        Processor::admit_stake(1, &damaged, &MINT_SHARE, &TREASURY_TOKEN),
        Err(AppError::FrozenPool)
    );
    assert_eq!(
        Processor::admit_havest(&damaged, &OTHER, &TREASURY_SEN),
        Err(AppError::UnmatchedPool)
    );
}

#[test]
fn initialize_account_sets_up_a_debt() {
    let blank =
        Debt { stake_pool: [0; 32], owner: [0; 32], account: [0; 32], debt: 0, is_initialized: false };
    assert_eq!(Processor::initialize_account(&blank, &POOL, &OWNER, &SHARE), Ok(debt(0)));
    let stale = Debt { debt: 55, ..blank };
    assert_eq!(Processor::initialize_account(&stale, &POOL, &OWNER, &SHARE), Ok(debt(0)));
}

#[test]
fn initialize_account_only_once() {
    assert_eq!(
        Processor::initialize_account(&debt(0), &POOL, &OWNER, &SHARE),
        Err(AppError::ConstructorOnce)
    );
}

#[test]
fn debt_address_must_be_the_derived_one() {
    assert_eq!(Processor::is_debt_address(&POOL, &POOL), Ok(()));
    assert_eq!(Processor::is_debt_address(&POOL, &OTHER), Err(AppError::InvalidOwner));
}

#[test]
fn required_lamports_tops_up_to_the_least_balance() {
    assert_eq!(Processor::required_lamports(1000, 0), 1000);
    assert_eq!(Processor::required_lamports(1000, 400), 600);
    assert_eq!(Processor::required_lamports(1000, 1000), 0);
    assert_eq!(Processor::required_lamports(1000, 5000), 0);
    assert_eq!(Processor::required_lamports(0, 0), 1);
    assert_eq!(Processor::required_lamports(0, 1), 0);
    assert_eq!(Processor::required_lamports(1, 0), 1);
    assert_eq!(Processor::required_lamports(u64::MAX, 0), u64::MAX);
}

#[test]
fn freeze_and_thaw_change_the_state_only() {
    let open = pool(20, 5 * E18);
    let frozen = Processor::freeze_stake_pool(open);
    assert_eq!(frozen, StakePool { state: StakePoolState::Frozen, ..open });
    assert_eq!(Processor::freeze_stake_pool(frozen), frozen);
    assert_eq!(Processor::thaw_stake_pool(frozen), open);
    assert_eq!(Processor::thaw_stake_pool(open), open);
}

#[test]
fn transfer_changes_the_owner_only() {
    let before = pool(20, 5 * E18);
    let after = Processor::transfer_stake_pool_ownership(before, &OTHER);
    assert_eq!(after, StakePool { owner: OTHER, ..before });
}

#[test]
fn seed_and_unseed_check_treasury_and_amount() {
    let pool = pool(0, 0);
    assert_eq!(Processor::seed(5, &pool, &TREASURY_SEN), Ok(()));
    assert_eq!(Processor::seed(5, &pool, &OTHER), Err(AppError::UnmatchedPool));
    assert_eq!(Processor::seed(0, &pool, &TREASURY_SEN), Err(AppError::ZeroValue));
    assert_eq!(Processor::seed(0, &pool, &OTHER), Err(AppError::UnmatchedPool));
    assert_eq!(Processor::unseed(5, &pool, &TREASURY_SEN), Ok(()));
    assert_eq!(Processor::unseed(5, &pool, &OTHER), Err(AppError::UnmatchedPool));
    assert_eq!(Processor::unseed(0, &pool, &TREASURY_SEN), Err(AppError::ZeroValue));
}

#[test]
fn is_program_wants_every_owner() {
    assert_eq!(Processor::is_program(&PROGRAM, &[]), Ok(()));
    assert_eq!(Processor::is_program(&PROGRAM, &[PROGRAM]), Ok(()));
    assert_eq!(Processor::is_program(&PROGRAM, &[PROGRAM, PROGRAM]), Ok(()));
    assert_eq!(Processor::is_program(&PROGRAM, &[OTHER]), Err(AppError::IncorrectProgramId));
    assert_eq!(
        Processor::is_program(&PROGRAM, &[PROGRAM, OTHER]),
        Err(AppError::IncorrectProgramId)
    );
    assert_eq!(
        Processor::is_program(&PROGRAM, &[OTHER, PROGRAM]),
        Err(AppError::IncorrectProgramId)
    );
}

#[test]
fn is_signer_wants_every_signature() {
    assert_eq!(Processor::is_signer(&[]), Ok(()));
    assert_eq!(Processor::is_signer(&[true, true]), Ok(()));
    assert_eq!(Processor::is_signer(&[false]), Err(AppError::InvalidOwner));
    assert_eq!(Processor::is_signer(&[true, false]), Err(AppError::InvalidOwner));
    assert_eq!(Processor::is_signer(&[false, true]), Err(AppError::InvalidOwner));
}

#[test]
fn is_stake_pool_owner_compares_the_owner() {
    assert_eq!(Processor::is_stake_pool_owner(&OWNER, &pool(0, 0)), Ok(()));
    assert_eq!(Processor::is_stake_pool_owner(&OTHER, &pool(0, 0)), Err(AppError::InvalidOwner));
}

#[test]
fn is_debt_owner_compares_all_three() {
    assert_eq!(Processor::is_debt_owner(&OWNER, &debt(0), &POOL, &SHARE), Ok(()));
    assert_eq!(
        Processor::is_debt_owner(&OTHER, &debt(0), &POOL, &SHARE),
        Err(AppError::InvalidOwner)
    );
    assert_eq!(
        Processor::is_debt_owner(&OWNER, &debt(0), &OTHER, &SHARE),
        Err(AppError::InvalidOwner)
    );
    assert_eq!(
        Processor::is_debt_owner(&OWNER, &debt(0), &POOL, &OTHER),
        Err(AppError::InvalidOwner)
    );
}

#[test]
fn full_unstake_leaves_nothing_to_close() {
    let after = unstake(10, &pool(20, 5 * E18), 150, 10, 1030).unwrap();
    assert_eq!(after.shares, 0);
    assert_eq!(after.debt, 0);
    assert_eq!(after.total_shares, 10);
    let after = unstake(10, &pool(10, 3 * E18), 130, 10, 1010).unwrap();
    assert_eq!(
        after,
        Settlement { payout: 0, shares: 0, debt: 0, total_shares: 0, compensation: 0 }
    );
}

#[test]
fn check_seed_compares_the_derived_address() {
    assert_eq!(check_seed(&POOL, Ok(TREASURER), &TREASURER), Ok(POOL));
    assert_eq!(check_seed(&POOL, Ok(TREASURER), &OTHER), Err(SeedError::InvalidSeeds));
    assert_eq!(check_seed(&POOL, Ok(POOL), &TREASURER), Err(SeedError::InvalidSeeds));
}

#[test]
fn check_seed_hands_on_the_error() {
    assert_eq!(
        check_seed(&POOL, Err(SeedError::MaxSeedLengthExceeded), &TREASURER),
        Err(SeedError::MaxSeedLengthExceeded)
    );
    assert_eq!(
        check_seed(&POOL, Err(SeedError::InvalidSeeds), &TREASURER),
        Err(SeedError::InvalidSeeds)
    );
    assert_eq!(
        check_seed(&POOL, Err(SeedError::IllegalOwner), &POOL),
        Err(SeedError::IllegalOwner)
    );
}

#[test]
fn safe_seed_accepts_the_derived_address_only() {
    let mut derived = 0;
    let mut underived = 0;
    for byte in 0..64u8 {
        let seed = [byte; 32];
        match Pubkey::create_program_address(&[&seed], &Pubkey::new_from_array(PROGRAM)) {
            Ok(address) => {
                let address = address.to_bytes();
                assert_ne!(address, seed);
                assert_eq!(Processor::safe_seed(&seed, &address, &PROGRAM), Ok(seed));
                assert_eq!(
                    Processor::safe_seed(&seed, &seed, &PROGRAM),
                    Err(SeedError::InvalidSeeds)
                );
                // Another program derives another address.
                assert_eq!(
                    Processor::safe_seed(&seed, &address, &OTHER),
                    Err(SeedError::InvalidSeeds)
                );
                derived += 1;
            }
            Err(_) => {
                assert_eq!(
                    Processor::safe_seed(&seed, &seed, &PROGRAM),
                    Err(SeedError::InvalidSeeds)
                );
                underived += 1;
            }
        }
    }
    assert!(derived > 0);
    assert!(underived > 0);
}

#[test]
fn settle_runs_the_three_steps() {
    assert_eq!(
        Processor::settle(10, 6, 150, 5 * E18, 3, 100, 20),
        Ok(farming::processor::Settlement {
            payout: 50,
            shares: 6,
            debt: 120,
            total_shares: 16,
            compensation: 1_250_000_000_000_000_000,
        })
    );
    // The three steps by hand.
    let harvest = farming::helper::pattern::Pattern::fully_havest(10, 150, 5 * E18, 3, 100, 20, 20);
    assert_eq!(harvest, Ok((10, 200, 5 * E18)));
    let detached =
        farming::helper::pattern::Pattern::fully_unstake(10, 200, 5 * E18, 3, 100, 20, 10);
    assert_eq!(detached, Ok((0, 0, -10 * E18)));
    let attached = farming::helper::pattern::Pattern::fully_stake(6, 0, -10 * E18, 3, 100, 10, 16);
    assert_eq!(attached, Ok((6, 120, 1_250_000_000_000_000_000)));
}

#[test]
fn settle_fails_as_overflow() {
    // A stale debt.
    assert_eq!(Processor::settle(10, 10, 201, 5 * E18, 3, 100, 20), Err(AppError::Overflow));
    // More shares than the pool holds.
    assert_eq!(Processor::settle(21, 21, 0, 0, 0, 100, 20), Err(AppError::Overflow));
    // A total beyond its width.
    assert_eq!(Processor::settle(0, u64::MAX, 0, 0, 0, 100, 1), Err(AppError::Overflow));
    // The largest payout, then a payout and a debt beyond their width.
    assert_eq!(
        Processor::settle(u64::MAX, u64::MAX, 0, 0, 1, u64::MAX, u64::MAX),
        Ok(farming::processor::Settlement {
            payout: u64::MAX,
            shares: u64::MAX,
            debt: u64::MAX as u128,
            total_shares: u64::MAX,
            compensation: 0,
        })
    );
    assert_eq!(
        Processor::settle(u64::MAX, u64::MAX, 0, 0, u64::MAX, u64::MAX, u64::MAX),
        Err(AppError::Overflow)
    );
    assert_eq!(
        Processor::settle(u64::MAX, u64::MAX, 0, i128::MAX, u64::MAX, u64::MAX, u64::MAX),
        Err(AppError::Overflow)
    );
}
