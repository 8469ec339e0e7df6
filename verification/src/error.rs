//! The errors that a contract call can end with.

use vstd::prelude::*;

verus! {

/// The serialization and storage error of `cosmwasm_std`. Nothing in this
/// crate looks inside a value of it: it is carried from the call that
/// produced it to the caller.
#[verifier::external_type_specification]
#[verifier::external_body]
pub struct ExStdError(cosmwasm_std::StdError);

/// Why a contract call was rejected.
#[derive(Debug, PartialEq)]
pub enum ContractError {
    /// An error of the host library, passed on unchanged.
    Std(cosmwasm_std::StdError),
    /// The record of the contract was never written.
    NotFound,
    /// The caller is not the owner of the contract.
    Unauthorized,
    /// No coin of the expected denomination came with a buy.
    CoinMismatch,
    /// The payout is more than the contract holds on the token ledger.
    InsufficientCoinsInContract,
    /// The price cannot be used as a divisor.
    InvalidPrice,
    /// The amount to withdraw is below zero: no coin has such an amount.
    InvalidAmount,
    /// A query to another contract did not give a usable answer. The text
    /// is the one the host gave.
    QueryFailed(String),
    /// The entry point is reserved and does nothing yet.
    NotImplemented,
}

/// A `ContractError` as a mathematical value.
pub enum ContractErrorView {
    Std(cosmwasm_std::StdError),
    NotFound,
    Unauthorized,
    CoinMismatch,
    InsufficientCoinsInContract,
    InvalidPrice,
    InvalidAmount,
    QueryFailed(Seq<char>),
    NotImplemented,
}

impl View for ContractError {
    type V = ContractErrorView;

    open spec fn view(&self) -> ContractErrorView {
        match self {
            ContractError::Std(e) => ContractErrorView::Std(*e),
            ContractError::NotFound => ContractErrorView::NotFound,
            ContractError::Unauthorized => ContractErrorView::Unauthorized,
            ContractError::CoinMismatch => ContractErrorView::CoinMismatch,
            ContractError::InsufficientCoinsInContract => {
                ContractErrorView::InsufficientCoinsInContract
            },
            ContractError::InvalidPrice => ContractErrorView::InvalidPrice,
            ContractError::InvalidAmount => ContractErrorView::InvalidAmount,
            ContractError::QueryFailed(reason) => ContractErrorView::QueryFailed(reason@),
            ContractError::NotImplemented => ContractErrorView::NotImplemented,
        }
    }
}

} // verus!
