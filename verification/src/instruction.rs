//! The instructions of the program and their byte form.
//!
//! An instruction is one tag byte, followed for some tags by little-endian
//! `u64` arguments. Bytes after the arguments are ignored.

use crate::codec::le_value;
use crate::codec::read_u64;
use crate::error::AppError;
use vstd::prelude::*;

verus! {

/// An instruction of the program.
#[derive(Clone, Debug, PartialEq)]
pub enum AppInstruction {
    InitializeStakePool { reward: u64, period: u64 },
    InitializeAccounts,
    Stake { amount: u64 },
    Unstake { amount: u64 },
    Harvest,
    FreezeStakePool,
    ThawStakePool,
    Seed { amount: u64 },
    Unseed { amount: u64 },
    TransferStakePoolOwnership,
    CloseDebt,
    CloseStakePool,
}

/// The `u64` argument in the eight bytes of an instruction from `start` on.
pub open spec fn argument(bytes: Seq<u8>, start: int) -> u64 {
    le_value(bytes.subrange(start, start + 8)) as u64
}

/// The instruction that `bytes` spell, if any.
pub open spec fn decoded(bytes: Seq<u8>) -> Result<AppInstruction, AppError> {
    if bytes.len() == 0 {
        Err(AppError::InvalidInstruction)
    } else if bytes[0] == 0 && bytes.len() >= 17 {
        Ok(
            AppInstruction::InitializeStakePool {
                reward: argument(bytes, 1),
                period: argument(bytes, 9),
            },
        )
    } else if bytes[0] == 1 {
        Ok(AppInstruction::InitializeAccounts)
    } else if bytes[0] == 2 && bytes.len() >= 9 {
        Ok(AppInstruction::Stake { amount: argument(bytes, 1) })
    } else if bytes[0] == 3 && bytes.len() >= 9 {
        Ok(AppInstruction::Unstake { amount: argument(bytes, 1) })
    } else if bytes[0] == 4 {
        Ok(AppInstruction::Harvest)
    } else if bytes[0] == 5 {
        Ok(AppInstruction::FreezeStakePool)
    } else if bytes[0] == 6 {
        Ok(AppInstruction::ThawStakePool)
    } else if bytes[0] == 7 && bytes.len() >= 9 {
        Ok(AppInstruction::Seed { amount: argument(bytes, 1) })
    } else if bytes[0] == 8 && bytes.len() >= 9 {
        Ok(AppInstruction::Unseed { amount: argument(bytes, 1) })
    } else if bytes[0] == 9 {
        Ok(AppInstruction::TransferStakePoolOwnership)
    } else if bytes[0] == 10 {
        Ok(AppInstruction::CloseDebt)
    } else if bytes[0] == 11 {
        Ok(AppInstruction::CloseStakePool)
    } else {
        Err(AppError::InvalidInstruction)
    }
}

/// Reads the argument at `start`, if the instruction is long enough.
fn unpack_argument(instruction: &[u8], start: usize) -> (r: Option<u64>)
    requires
        start <= 9,
    ensures
        r is Some <==> instruction@.len() >= start + 8,
        r is Some ==> r->Some_0 == argument(instruction@, start as int),
{
    if instruction.len() < start + 8 {
        return None;
    }
    Some(read_u64(instruction, start))
}

impl AppInstruction {
    /// Decodes an instruction from its bytes.
    ///
    /// Fails with `InvalidInstruction` on empty input, on an unknown tag, and
    /// where the bytes after the tag are too few for the arguments.
    pub fn unpack(instruction: &[u8]) -> (r: Result<AppInstruction, AppError>)
        ensures
            r == decoded(instruction@),
    {
        if instruction.len() == 0 {
            return Err(AppError::InvalidInstruction);
        }
        let tag = instruction[0];
        match tag {
            0 => {
                let reward = match unpack_argument(instruction, 1) {
                    Some(value) => value,
                    None => { return Err(AppError::InvalidInstruction); },
                };
                let period = match unpack_argument(instruction, 9) {
                    Some(value) => value,
                    None => { return Err(AppError::InvalidInstruction); },
                };
                Ok(AppInstruction::InitializeStakePool { reward, period })
            },
            1 => Ok(AppInstruction::InitializeAccounts),
            2 => match unpack_argument(instruction, 1) {
                Some(amount) => Ok(AppInstruction::Stake { amount }),
                None => Err(AppError::InvalidInstruction),
            },
            3 => match unpack_argument(instruction, 1) {
                Some(amount) => Ok(AppInstruction::Unstake { amount }),
                None => Err(AppError::InvalidInstruction),
            },
            4 => Ok(AppInstruction::Harvest),
            5 => Ok(AppInstruction::FreezeStakePool),
            6 => Ok(AppInstruction::ThawStakePool),
            7 => match unpack_argument(instruction, 1) {
                Some(amount) => Ok(AppInstruction::Seed { amount }),
                None => Err(AppError::InvalidInstruction),
            },
            8 => match unpack_argument(instruction, 1) {
                Some(amount) => Ok(AppInstruction::Unseed { amount }),
                None => Err(AppError::InvalidInstruction),
            },
            9 => Ok(AppInstruction::TransferStakePoolOwnership),
            10 => Ok(AppInstruction::CloseDebt),
            11 => Ok(AppInstruction::CloseStakePool),
            _ => Err(AppError::InvalidInstruction),
        }
    }
}

} // verus!
