//! The messages that the swap accepts and sends, and the answers it reads.

use vstd::prelude::*;

verus! {

/// Creates the swap between a token ledger and an oracle.
#[derive(Debug, Clone, PartialEq, Eq)]
pub struct InstantiateMsg {
    pub token_address: String,
    pub oracle_address: String,
}

/// Changes the swap.
#[derive(Debug, Clone, PartialEq, Eq)]
pub enum ExecuteMsg {
    /// Buys tokens for the native coins that come with the call.
    Buy {},
    /// Sends `amount` native coins to the owner.
    Withdraw { amount: i32 },
}

/// A query, to the swap or from the swap to another contract.
#[derive(Debug, Clone, PartialEq, Eq)]
pub enum QueryMsg {
    /// Asks an oracle for its price.
    QueryPrice {},
    /// Asks a token ledger for the balance of `address`.
    Balance { address: String },
}

/// A `QueryMsg` as a mathematical value.
pub enum QueryMsgView {
    QueryPrice,
    Balance { address: Seq<char> },
}

impl View for QueryMsg {
    type V = QueryMsgView;

    open spec fn view(&self) -> QueryMsgView {
        match self {
            QueryMsg::QueryPrice {  } => QueryMsgView::QueryPrice,
            QueryMsg::Balance { address } => QueryMsgView::Balance { address: address@ },
        }
    }
}

/// The contract migrates with a message that says nothing.
#[derive(Debug, Clone, PartialEq, Eq)]
pub struct Empty {}

/// The answer of an oracle to `QueryPrice`.
#[derive(Debug, Clone, PartialEq, Eq)]
pub struct PriceResponse {
    pub price: u64,
}

/// The answer of a token ledger to `Balance`.
#[derive(Debug, Clone, PartialEq, Eq)]
pub struct BalanceResponse {
    pub balance: u128,
}

} // verus!
