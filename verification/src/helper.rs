//! The accounting rules that every operation on a pool goes through.

pub mod laws;
pub mod pattern;
pub mod pubutil;
