//! Reward accounting for a staking pool: exact fixed-point arithmetic over
//! wide integers, with every transition stated as a contract and proved.

pub mod codec;
pub mod error;
pub mod helper;
pub mod instruction;
pub mod processor;
pub mod schema;
pub mod wide;
