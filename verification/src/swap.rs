//! The swap contract: native coin in, ledger tokens out.

pub mod contract;
pub mod flow;
pub mod helpers;
pub mod msg;
pub mod settlement;
pub mod state;
