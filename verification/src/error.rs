//! Why the program rejects an operation.

use vstd::prelude::*;

verus! {

/// The program's own errors.
#[derive(Clone, Copy, Debug, PartialEq, Eq, Structural)]
pub enum AppError {
    /// The instruction bytes name no instruction, or are too short for it.
    InvalidInstruction,
    /// An account is not the one that the record names, or did not sign.
    InvalidOwner,
    /// An account does not belong to this program.
    IncorrectProgramId,
    /// A record that is set up once was set up before.
    ConstructorOnce,
    /// A number left the range of its type, or the ledger rejected a step.
    Overflow,
    /// An account is not the one that the pool names.
    UnmatchedPool,
    /// The pool is frozen.
    FrozenPool,
    /// An amount, a rate or a period is zero where it must not be.
    ZeroValue,
}

/// Why the bytes of a record could not be read.
#[derive(Clone, Copy, Debug, PartialEq, Eq, Structural)]
pub enum RecordError {
    /// A byte holds a value that its field does not have.
    InvalidAccountData,
}

/// Why no program address was accepted for a seed.
#[derive(Clone, Copy, Debug, PartialEq, Eq, Structural)]
pub enum SeedError {
    /// A seed is longer than an address derivation takes.
    MaxSeedLengthExceeded,
    /// The seeds derive no valid address, or not the expected one.
    InvalidSeeds,
    /// The owner is not allowed.
    IllegalOwner,
}

} // verus!
