//! The record of a pool.
//!
//! A pool is stored in `STAKE_POOL_LEN` bytes: the fields in the order of
//! the struct, keys as they are, the state as one byte and integers
//! little-endian.

use crate::codec::le_bytes;
use crate::codec::le_bytes_len;
use crate::codec::le_value;
use crate::codec::overwritten;
use crate::codec::overwritten_appends;
use crate::codec::read_i128;
use crate::codec::read_i64;
use crate::codec::read_key;
use crate::codec::read_u64;
use crate::codec::signed_value;
use crate::codec::unsigned_image;
use crate::codec::write_i128;
use crate::codec::write_i64;
use crate::codec::write_key;
use crate::codec::write_u64;
use crate::error::RecordError;
use vstd::prelude::*;

verus! {

/// The address of an account: 32 bytes.
pub type Key = [u8; 32];

/// The number of bytes that a pool is stored in.
pub const STAKE_POOL_LEN: usize = 209;

/// The state of a pool.
#[derive(Clone, Copy, Debug, PartialEq, Eq, Structural)]
pub enum StakePoolState {
    Uninitialized,
    Initialized,
    Frozen,
}

impl Default for StakePoolState {
    fn default() -> (r: Self)
        ensures
            r == StakePoolState::Uninitialized,
    {
        StakePoolState::Uninitialized
    }
}

impl StakePoolState {
    /// The byte that stands for the state in a record.
    pub open spec fn byte(self) -> u8 {
        match self {
            StakePoolState::Uninitialized => 0,
            StakePoolState::Initialized => 1,
            StakePoolState::Frozen => 2,
        }
    }

    /// The byte that stands for the state in a record.
    pub fn to_byte(self) -> (r: u8)
        ensures
            r == self.byte(),
    {
        match self {
            StakePoolState::Uninitialized => 0,
            StakePoolState::Initialized => 1,
            StakePoolState::Frozen => 2,
        }
    }

    /// The state that `byte` stands for, if any.
    pub fn try_from_primitive(byte: u8) -> (r: Option<StakePoolState>)
        ensures
            r is Some <==> byte <= 2,
            r is Some ==> r->Some_0.byte() == byte,
    {
        if byte == 0 {
            Some(StakePoolState::Uninitialized)
        } else if byte == 1 {
            Some(StakePoolState::Initialized)
        } else if byte == 2 {
            Some(StakePoolState::Frozen)
        } else {
            None
        }
    }
}

/// A pool: who owns it, what is staked in it, and at what rate it rewards.
#[derive(Clone, Copy, Debug, PartialEq)]
pub struct StakePool {
    pub owner: Key,
    pub state: StakePoolState,
    pub genesis_timestamp: i64,
    pub total_shares: u64,
    pub mint_share: Key,
    pub mint_token: Key,
    pub treasury_token: Key,
    /// Reward units per share and period.
    pub reward: u64,
    /// Seconds per period: above zero in every pool that was set up.
    pub period: u64,
    /// The correction of the reward per share, scaled by 10^18.
    pub compensation: i128,
    pub treasury_sen: Key,
}

/// 32 bytes that are all zero.
pub open spec fn zero_key() -> Seq<u8> {
    Seq::new(32, |i: int| 0u8)
}

impl Default for StakePool {
    /// A pool that was not set up: every key and number is zero.
    fn default() -> (r: Self)
        ensures
            r.state == StakePoolState::Uninitialized,
            r.owner@ == zero_key(),
            r.mint_share@ == zero_key(),
            r.mint_token@ == zero_key(),
            r.treasury_token@ == zero_key(),
            r.treasury_sen@ == zero_key(),
            r.genesis_timestamp == 0,
            r.total_shares == 0,
            r.reward == 0,
            r.period == 0,
            r.compensation == 0,
    {
        let zero = [0u8; 32];
        StakePool {
            owner: zero,
            state: StakePoolState::Uninitialized,
            genesis_timestamp: 0,
            total_shares: 0,
            mint_share: zero,
            mint_token: zero,
            treasury_token: zero,
            reward: 0,
            period: 0,
            compensation: 0,
            treasury_sen: zero,
        }
    }
}

impl StakePool {
    /// The bytes that the pool is stored as.
    pub open spec fn encoding(self) -> Seq<u8> {
        self.owner@ + seq![self.state.byte()] + le_bytes(
            unsigned_image(self.genesis_timestamp as int, 8),
            8,
        ) + le_bytes(self.total_shares as nat, 8) + self.mint_share@ + self.mint_token@
            + self.treasury_token@ + le_bytes(self.reward as nat, 8) + le_bytes(
            self.period as nat,
            8,
        ) + le_bytes(unsigned_image(self.compensation as int, 16), 16) + self.treasury_sen@
    }

    /// Whether the fields of the pool are what `bytes` hold at their places.
    pub open spec fn stored_in(self, bytes: Seq<u8>) -> bool {
        &&& bytes.len() >= STAKE_POOL_LEN
        &&& self.owner@ == bytes.subrange(0, 32)
        &&& self.state.byte() == bytes[32]
        &&& self.genesis_timestamp == signed_value(le_value(bytes.subrange(33, 41)), 8)
        &&& self.total_shares == le_value(bytes.subrange(41, 49))
        &&& self.mint_share@ == bytes.subrange(49, 81)
        &&& self.mint_token@ == bytes.subrange(81, 113)
        &&& self.treasury_token@ == bytes.subrange(113, 145)
        &&& self.reward == le_value(bytes.subrange(145, 153))
        &&& self.period == le_value(bytes.subrange(153, 161))
        &&& self.compensation == signed_value(le_value(bytes.subrange(161, 177)), 16)
        &&& self.treasury_sen@ == bytes.subrange(177, 209)
    }

    /// Whether the pool is frozen.
    pub fn is_frozen(&self) -> (r: bool)
        ensures
            r == (self.state == StakePoolState::Frozen),
    {
        self.state == StakePoolState::Frozen
    }

    /// Whether the pool was set up.
    pub fn is_initialized(&self) -> (r: bool)
        ensures
            r == (self.state != StakePoolState::Uninitialized),
    {
        self.state != StakePoolState::Uninitialized
    }

    /// Reads a pool from the first `STAKE_POOL_LEN` bytes of `src`.
    ///
    /// Fails where the state byte stands for no state, and only there.
    pub fn unpack_from_slice(src: &[u8]) -> (r: Result<StakePool, RecordError>)
        requires
            src@.len() >= STAKE_POOL_LEN,
        ensures
            r is Ok <==> src@[32] <= 2,
            r is Ok ==> r->Ok_0.stored_in(src@),
            r is Err ==> r->Err_0 == RecordError::InvalidAccountData,
    {
        let state = match StakePoolState::try_from_primitive(src[32]) {
            Some(state) => state,
            None => { return Err(RecordError::InvalidAccountData); },
        };
        Ok(
            StakePool {
                owner: read_key(src, 0),
                state,
                genesis_timestamp: read_i64(src, 33),
                total_shares: read_u64(src, 41),
                mint_share: read_key(src, 49),
                mint_token: read_key(src, 81),
                treasury_token: read_key(src, 113),
                reward: read_u64(src, 145),
                period: read_u64(src, 153),
                compensation: read_i128(src, 161),
                treasury_sen: read_key(src, 177),
            },
        )
    }

    /// Writes the pool into the first `STAKE_POOL_LEN` bytes of `dst`, and
    /// leaves the bytes after them as they are.
    pub fn pack_into_slice(&self, dst: &mut [u8])
        requires
            old(dst)@.len() >= STAKE_POOL_LEN,
        ensures
            final(dst)@ == overwritten(old(dst)@, 0, self.encoding()),
            self.encoding().len() == STAKE_POOL_LEN,
    {
        let ghost initial = dst@;
        let ghost genesis = le_bytes(unsigned_image(self.genesis_timestamp as int, 8), 8);
        let ghost total_shares = le_bytes(self.total_shares as nat, 8);
        let ghost reward = le_bytes(self.reward as nat, 8);
        let ghost period = le_bytes(self.period as nat, 8);
        let ghost compensation = le_bytes(unsigned_image(self.compensation as int, 16), 16);
        proof {
            le_bytes_len(unsigned_image(self.genesis_timestamp as int, 8), 8);
            le_bytes_len(self.total_shares as nat, 8);
            le_bytes_len(self.reward as nat, 8);
            le_bytes_len(self.period as nat, 8);
            le_bytes_len(unsigned_image(self.compensation as int, 16), 16);
        }
        write_key(dst, 0, &self.owner);
        let ghost written = self.owner@;
        let ghost before = dst@;
        dst[32] = self.state.to_byte();
        proof {
            assert(dst@ =~= overwritten(before, 32, seq![self.state.byte()]));
            overwritten_appends(initial, written, seq![self.state.byte()]);
            written = written + seq![self.state.byte()];
        }
        write_i64(dst, 33, self.genesis_timestamp);
        proof {
            overwritten_appends(initial, written, genesis);
            written = written + genesis;
        }
        write_u64(dst, 41, self.total_shares);
        proof {
            overwritten_appends(initial, written, total_shares);
            written = written + total_shares;
        }
        write_key(dst, 49, &self.mint_share);
        proof {
            overwritten_appends(initial, written, self.mint_share@);
            written = written + self.mint_share@;
        }
        write_key(dst, 81, &self.mint_token);
        proof {
            overwritten_appends(initial, written, self.mint_token@);
            written = written + self.mint_token@;
        }
        write_key(dst, 113, &self.treasury_token);
        proof {
            overwritten_appends(initial, written, self.treasury_token@);
            written = written + self.treasury_token@;
        }
        write_u64(dst, 145, self.reward);
        proof {
            overwritten_appends(initial, written, reward);
            written = written + reward;
        }
        write_u64(dst, 153, self.period);
        proof {
            overwritten_appends(initial, written, period);
            written = written + period;
        }
        write_i128(dst, 161, self.compensation);
        proof {
            overwritten_appends(initial, written, compensation);
            written = written + compensation;
        }
        write_key(dst, 177, &self.treasury_sen);
        proof {
            overwritten_appends(initial, written, self.treasury_sen@);
        }
    }
}

} // verus!
