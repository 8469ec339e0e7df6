//! A price oracle and a token swap, written as two contracts for a
//! CosmWasm-style host.
//!
//! The oracle keeps one price that only its owner may change. The swap asks
//! the oracle for that price, asks a token ledger how much the swap holds,
//! and pays out `received / price` tokens for the native coin it received.
//!
//! The host is never called from this crate. A contract entry point takes
//! the stored record, the call's surroundings and the answers of other
//! contracts as values, and returns what the host has to do next. The one
//! thing left to `cosmwasm_std` is to write the JSON payloads.

pub mod decimal;
pub mod encoding;
pub mod error;
pub mod host;
pub mod oracle;
pub mod store;
pub mod swap;
