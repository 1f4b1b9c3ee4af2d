//! A token staking ledger: how much principal each participant has
//! committed, for how long, under which interest schedule, and the exact
//! reward owed at any query time. A qualifying collectible can be locked
//! against a stake for a bonus schedule, and a still-locked position can
//! be restaked into a fresh one without interrupting the bonus.
//!
//! The ledger records and the reward and lifecycle rules live here and
//! are verified. Custody transfers, persistent storage, clock reads and
//! authorization are collaborators outside this crate: every operation
//! takes the instant `now` as an argument and reports the transfers it
//! needs as plain values.

pub mod constants;
pub mod decimal;
pub mod error;
pub mod instructions;
pub mod state;
pub mod utils;
