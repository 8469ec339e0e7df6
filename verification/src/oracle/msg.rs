//! The messages that the oracle accepts.

use vstd::prelude::*;

verus! {

/// Creates the oracle with its first price.
#[derive(Debug, Clone, PartialEq, Eq)]
pub struct InstantiateMsg {
    pub price: u64,
}

/// Changes the oracle.
#[derive(Debug, Clone, PartialEq, Eq)]
pub enum ExecuteMsg {
    /// Sets the price. Only the owner may.
    UpdatePrice { price: u64 },
}

/// Reads the oracle.
#[derive(Debug, Clone, PartialEq, Eq)]
pub enum QueryMsg {
    /// Asks for the price.
    QueryPrice {},
}

} // verus!
