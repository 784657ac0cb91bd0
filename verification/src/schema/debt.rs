//! The record of a participant's debt.
//!
//! A debt is stored in `DEBT_LEN` bytes: the three keys, the debt as a
//! little-endian `u128`, and one byte that is 1 once the record is set up.

use crate::codec::le_bytes;
use crate::codec::le_bytes_len;
use crate::codec::le_value;
use crate::codec::overwritten;
use crate::codec::overwritten_appends;
use crate::codec::read_key;
use crate::codec::read_u128;
use crate::codec::write_key;
use crate::codec::write_u128;
use crate::error::RecordError;
use crate::schema::stake_pool::zero_key;
use crate::schema::stake_pool::Key;
use vstd::prelude::*;

verus! {

/// The number of bytes that a debt is stored in.
pub const DEBT_LEN: usize = 113;

/// What a participant of a pool has been credited so far.
#[derive(Clone, Copy, Debug, PartialEq)]
pub struct Debt {
    pub stake_pool: Key,
    pub owner: Key,
    pub account: Key,
    /// Reward units already credited.
    pub debt: u128,
    pub is_initialized: bool,
}

impl Default for Debt {
    /// A debt that was not set up: every key is zero, and nothing is owed.
    fn default() -> (r: Self)
        ensures
            !r.is_initialized,
            r.debt == 0,
            r.stake_pool@ == zero_key(),
            r.owner@ == zero_key(),
            r.account@ == zero_key(),
    {
        let zero = [0u8; 32];
        Debt { stake_pool: zero, owner: zero, account: zero, debt: 0, is_initialized: false }
    }
}

impl Debt {
    /// The byte that stands for `is_initialized` in a record.
    pub open spec fn flag(self) -> u8 {
        if self.is_initialized {
            1
        } else {
            0
        }
    }

    /// The bytes that the debt is stored as.
    pub open spec fn encoding(self) -> Seq<u8> {
        self.stake_pool@ + self.owner@ + self.account@ + le_bytes(self.debt as nat, 16)
            + seq![self.flag()]
    }

    /// Whether the fields of the debt are what `bytes` hold at their places.
    pub open spec fn stored_in(self, bytes: Seq<u8>) -> bool {
        &&& bytes.len() >= DEBT_LEN
        &&& self.stake_pool@ == bytes.subrange(0, 32)
        &&& self.owner@ == bytes.subrange(32, 64)
        &&& self.account@ == bytes.subrange(64, 96)
        &&& self.debt == le_value(bytes.subrange(96, 112))
        &&& self.flag() == bytes[112]
    }

    /// Whether the record was set up.
    pub fn is_initialized(&self) -> (r: bool)
        ensures
            r == self.is_initialized,
    {
        self.is_initialized
    }

    /// Reads a debt from the first `DEBT_LEN` bytes of `src`.
    ///
    /// Fails where the last byte is neither 0 nor 1, and only there.
    pub fn unpack_from_slice(src: &[u8]) -> (r: Result<Debt, RecordError>)
        requires
            src@.len() >= DEBT_LEN,
        ensures
            r is Ok <==> src@[112] <= 1,
            r is Ok ==> r->Ok_0.stored_in(src@),
            r is Err ==> r->Err_0 == RecordError::InvalidAccountData,
    {
        let flag = src[112];
        let is_initialized = if flag == 0 {
            false
        } else if flag == 1 {
            true
        } else {
            return Err(RecordError::InvalidAccountData);
        };
        Ok(
            Debt {
                stake_pool: read_key(src, 0),
                owner: read_key(src, 32),
                account: read_key(src, 64),
                debt: read_u128(src, 96),
                is_initialized,
            },
        )
    }

    /// Writes the debt into the first `DEBT_LEN` bytes of `dst`, and leaves
    /// the bytes after them as they are.
    pub fn pack_into_slice(&self, dst: &mut [u8])
        requires
            old(dst)@.len() >= DEBT_LEN,
        ensures
            final(dst)@ == overwritten(old(dst)@, 0, self.encoding()),
            self.encoding().len() == DEBT_LEN,
    {
        let ghost initial = dst@;
        let ghost debt = le_bytes(self.debt as nat, 16);
        proof {
            le_bytes_len(self.debt as nat, 16);
        }
        write_key(dst, 0, &self.stake_pool);
        let ghost written = self.stake_pool@;
        write_key(dst, 32, &self.owner);
        proof {
            overwritten_appends(initial, written, self.owner@);
            written = written + self.owner@;
        }
        write_key(dst, 64, &self.account);
        proof {
            overwritten_appends(initial, written, self.account@);
            written = written + self.account@;
        }
        write_u128(dst, 96, self.debt);
        proof {
            overwritten_appends(initial, written, debt);
            written = written + debt;
        }
        let ghost before = dst@;
        dst[112] = if self.is_initialized {
            1
        } else {
            0
        };
        proof {
            assert(dst@ =~= overwritten(before, 112, seq![self.flag()]));
            overwritten_appends(initial, written, seq![self.flag()]);
        }
    }
}

} // verus!
