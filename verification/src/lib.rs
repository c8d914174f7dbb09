//! Transactions-per-second estimation over a trailing window of blocks.
//!
//! The crate classifies the transactions of a block into consensus votes and
//! user transactions, walks a chain of blocks backward from the tip until a
//! time threshold is crossed or the first block is reached, and turns the
//! accumulated count and the covered time span into a rate.

pub mod error;
pub mod block;
pub mod rate;
pub mod vote_program;
pub mod classify;
pub mod decode;
pub mod traversal;
