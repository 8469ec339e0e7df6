//! The record that the oracle keeps.

use vstd::prelude::*;

verus! {

/// The oracle's record: who may set the price, and the price.
#[derive(Debug, Clone, PartialEq, Eq)]
pub struct State {
    pub owner: String,
    pub price: u64,
}

/// A `State` as a mathematical value.
pub struct StateView {
    pub owner: Seq<char>,
    pub price: u64,
}

impl View for State {
    type V = StateView;

    open spec fn view(&self) -> StateView {
        StateView { owner: self.owner@, price: self.price }
    }
}

} // verus!
