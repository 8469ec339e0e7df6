//! The record that the swap keeps.

use vstd::prelude::*;

verus! {

/// The swap's record: who may withdraw, and the two contracts it talks to.
/// It is written once and never changed.
#[derive(Debug, Clone, PartialEq, Eq)]
pub struct State {
    pub owner: String,
    pub token_address: String,
    pub oracle_address: String,
}

/// A `State` as a mathematical value.
pub struct StateView {
    pub owner: Seq<char>,
    pub token_address: Seq<char>,
    pub oracle_address: Seq<char>,
}

impl View for State {
    type V = StateView;

    open spec fn view(&self) -> StateView {
        StateView {
            owner: self.owner@,
            token_address: self.token_address@,
            oracle_address: self.oracle_address@,
        }
    }
}

} // verus!
