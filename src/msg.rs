use vstd::prelude::*;

use crate::coin::Coin;

verus! {

/// The configuration a new instance starts from.
#[derive(Debug, Clone, PartialEq, Eq)]
pub struct InstantiateMsg {
    pub minimal_donation: Coin,
}

/// The state-changing operations.
#[derive(Debug, Clone, PartialEq, Eq)]
pub enum ExecMsg {
    /// Count the call if its attached funds meet the minimal donation.
    Donate,
    /// Set the counter (owner only).
    Reset { counter: u64 },
    /// Send the whole balance to the owner (owner only).
    Withdraw,
    /// Send the balance, capped by `funds` when that is not empty, to
    /// `receiver` (owner only).
    WithdrawTo { receiver: String, funds: Vec<Coin> },
}

/// The read-only queries.
#[derive(Debug, Clone, Copy, PartialEq, Eq, Structural)]
pub enum QueryMsg {
    /// The current counter.
    Value,
}

/// The answer to `QueryMsg::Value`.
#[derive(Debug, Clone, Copy, PartialEq, Eq, Structural)]
pub struct ValueResp {
    pub value: u64,
}

} // verus!
