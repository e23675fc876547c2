//! Token-streaming escrow: linear vesting of a deposited amount from an owner
//! to a recipient, with a ledger of streams keyed by a sequence identifier.
pub mod error;
pub mod state;
pub mod vesting;
pub mod contract;
