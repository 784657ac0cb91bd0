//! The records that the program keeps, and their byte layout.

pub mod debt;
pub mod round_trip;
pub mod stake_pool;
