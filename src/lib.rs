//! Withdrawal approval for a share-based fund: the decisions that turn a
//! user's pending withdrawal request into a settlement, with contracts.

pub mod error;
pub mod fee;
pub mod laws;
pub mod ledger;
pub mod settlement;
