//! Commit-reveal "double rock-paper-scissors" between two parties.

pub mod codec;
pub mod contract;
pub mod game;
pub mod outcome;
