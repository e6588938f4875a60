//! Batch settlement: one request fans out into a fee transfer and one transfer
//! per recipient, under a singleton settings record that fixes the fee rate,
//! the administrator and the fee destination.
//!
//! The library decides; it never moves value itself. Each handler validates its
//! accounts and returns the ordered list of actions that the surrounding ledger
//! runtime is to carry out atomically.

pub mod error;
pub mod fee;
pub mod wire;
pub mod address;
pub mod settings;
pub mod instruction;
pub mod action;
pub mod mint;
pub mod processor;
pub mod guarantees;
