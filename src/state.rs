use vstd::prelude::*;

use crate::coin::{Coin, CoinView};

verus! {

/// The persisted state of one contract instance.
#[derive(Debug, Clone, PartialEq, Eq)]
pub struct State {
    /// Grows by one with each sufficient donation; set by the owner's reset.
    pub counter: u64,
    /// The smallest donation that counts; fixed at instantiation.
    pub minimal_donation: Coin,
    /// The only account allowed to reset and to withdraw; fixed at instantiation.
    pub owner: String,
}

/// The mathematical value of a `State`.
pub struct StateView {
    pub counter: u64,
    pub minimal_donation: CoinView,
    pub owner: Seq<char>,
}

impl View for State {
    type V = StateView;

    open spec fn view(&self) -> StateView {
        StateView {
            counter: self.counter,
            minimal_donation: self.minimal_donation@,
            owner: self.owner@,
        }
    }
}

/// The caller and the coins attached to a call.
#[derive(Debug, Clone, PartialEq, Eq)]
pub struct MessageInfo {
    pub sender: String,
    pub funds: Vec<Coin>,
}

} // verus!
