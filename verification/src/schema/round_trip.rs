//! Writing a record and reading it back, and the other way round.

use crate::codec::le_bytes;
use crate::codec::le_bytes_len;
use crate::codec::le_bytes_of_le_value;
use crate::codec::le_value_bound;
use crate::codec::le_value_of_le_bytes;
use crate::codec::overwritten;
use crate::codec::radix_values;
use crate::codec::signed_round_trip;
use crate::codec::unsigned_image;
use crate::schema::debt::Debt;
use crate::schema::debt::DEBT_LEN;
use crate::schema::stake_pool::StakePool;
use crate::schema::stake_pool::STAKE_POOL_LEN;
use vstd::prelude::*;

verus! {

/// A pool that was written over the start of `bytes` is stored there, with a
/// state byte that reads back: reading after writing gives the same pool.
pub proof fn written_pool_is_stored(pool: StakePool, bytes: Seq<u8>)
    requires
        bytes.len() >= STAKE_POOL_LEN,
    ensures
        pool.encoding().len() == STAKE_POOL_LEN,
        pool.stored_in(overwritten(bytes, 0, pool.encoding())),
        overwritten(bytes, 0, pool.encoding())[32] <= 2,
{
    let genesis = unsigned_image(pool.genesis_timestamp as int, 8);
    let compensation = unsigned_image(pool.compensation as int, 16);
    radix_values();
    signed_round_trip(8);
    signed_round_trip(16);
    le_bytes_len(genesis, 8);
    le_bytes_len(pool.total_shares as nat, 8);
    le_bytes_len(pool.reward as nat, 8);
    le_bytes_len(pool.period as nat, 8);
    le_bytes_len(compensation, 16);
    le_value_of_le_bytes(genesis, 8);
    le_value_of_le_bytes(pool.total_shares as nat, 8);
    le_value_of_le_bytes(pool.reward as nat, 8);
    le_value_of_le_bytes(pool.period as nat, 8);
    le_value_of_le_bytes(compensation, 16);
    let stored = overwritten(bytes, 0, pool.encoding());
    assert(stored.subrange(0, 32) =~= pool.owner@);
    assert(stored.subrange(33, 41) =~= le_bytes(genesis, 8));
    assert(stored.subrange(41, 49) =~= le_bytes(pool.total_shares as nat, 8));
    assert(stored.subrange(49, 81) =~= pool.mint_share@);
    assert(stored.subrange(81, 113) =~= pool.mint_token@);
    assert(stored.subrange(113, 145) =~= pool.treasury_token@);
    assert(stored.subrange(145, 153) =~= le_bytes(pool.reward as nat, 8));
    assert(stored.subrange(153, 161) =~= le_bytes(pool.period as nat, 8));
    assert(stored.subrange(161, 177) =~= le_bytes(compensation, 16));
    assert(stored.subrange(177, 209) =~= pool.treasury_sen@);
}

/// The encoding of a pool that is stored in `bytes` is the start of `bytes`:
/// writing after reading changes nothing.
pub proof fn stored_pool_encodes_its_bytes(pool: StakePool, bytes: Seq<u8>)
    requires
        pool.stored_in(bytes),
    ensures
        pool.encoding() == bytes.subrange(0, STAKE_POOL_LEN as int),
        overwritten(bytes, 0, pool.encoding()) == bytes,
{
    le_value_bound(bytes.subrange(33, 41));
    le_value_bound(bytes.subrange(161, 177));
    le_bytes_of_le_value(bytes.subrange(33, 41));
    le_bytes_of_le_value(bytes.subrange(41, 49));
    le_bytes_of_le_value(bytes.subrange(145, 153));
    le_bytes_of_le_value(bytes.subrange(153, 161));
    le_bytes_of_le_value(bytes.subrange(161, 177));
}

/// Bytes hold at most one pool.
pub proof fn stored_pool_is_unique(first: StakePool, second: StakePool, bytes: Seq<u8>)
    requires
        first.stored_in(bytes),
        second.stored_in(bytes),
    ensures
        first == second,
{
    assert(first.owner =~= second.owner);
    assert(first.mint_share =~= second.mint_share);
    assert(first.mint_token =~= second.mint_token);
    assert(first.treasury_token =~= second.treasury_token);
    assert(first.treasury_sen =~= second.treasury_sen);
}

/// A debt that was written over the start of `bytes` is stored there, with a
/// last byte that reads back: reading after writing gives the same debt.
pub proof fn written_debt_is_stored(debt: Debt, bytes: Seq<u8>)
    requires
        bytes.len() >= DEBT_LEN,
    ensures
        debt.encoding().len() == DEBT_LEN,
        debt.stored_in(overwritten(bytes, 0, debt.encoding())),
        overwritten(bytes, 0, debt.encoding())[112] <= 1,
{
    radix_values();
    le_bytes_len(debt.debt as nat, 16);
    le_value_of_le_bytes(debt.debt as nat, 16);
    let stored = overwritten(bytes, 0, debt.encoding());
    assert(stored.subrange(0, 32) =~= debt.stake_pool@);
    assert(stored.subrange(32, 64) =~= debt.owner@);
    assert(stored.subrange(64, 96) =~= debt.account@);
    assert(stored.subrange(96, 112) =~= le_bytes(debt.debt as nat, 16));
}

/// The encoding of a debt that is stored in `bytes` is the start of `bytes`:
/// writing after reading changes nothing.
pub proof fn stored_debt_encodes_its_bytes(debt: Debt, bytes: Seq<u8>)
    requires
        debt.stored_in(bytes),
    ensures
        debt.encoding() == bytes.subrange(0, DEBT_LEN as int),
        overwritten(bytes, 0, debt.encoding()) == bytes,
{
    le_bytes_of_le_value(bytes.subrange(96, 112));
}

/// Bytes hold at most one debt.
pub proof fn stored_debt_is_unique(first: Debt, second: Debt, bytes: Seq<u8>)
    requires
        first.stored_in(bytes),
        second.stored_in(bytes),
    ensures
        first == second,
{
    assert(first.stake_pool =~= second.stake_pool);
    assert(first.owner =~= second.owner);
    assert(first.account =~= second.account);
}

} // verus!
