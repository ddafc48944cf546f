//! A lock-free transposition table for alpha-beta search, with the
//! packed-entry codec and the probe and replacement rules proved against
//! their mathematical statements.

pub mod chessmove;
pub mod definitions;
pub mod laws;
pub mod transpositiontable;
