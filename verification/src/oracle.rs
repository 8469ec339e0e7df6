//! The oracle contract: one price, set by its owner and read by anyone.

pub mod contract;
pub mod msg;
pub mod state;
