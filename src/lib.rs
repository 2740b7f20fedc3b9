//! A counting contract: a counter that grows with sufficient donations, an
//! owner who may reset it, and withdrawals of the contract's funds.
//!
//! The host (storage, the bank and the wire format) stays outside this crate:
//! every operation here takes the persisted state and the values the host
//! supplies, and returns the new state together with the response to emit.

use vstd::prelude::*;

pub mod coin;
pub mod contract;
pub mod error;
pub mod msg;
pub mod response;
pub mod state;
pub mod theorems;

pub use coin::{Coin, CoinView, coins_view, decimal};
pub use contract::{
    after_donate, after_reset, cap_for, donate_response, donation_fits, initial_state,
    reset_response, threshold_met, withdraw_response, withdraw_to_amounts,
};
pub use error::{ContractError, is_unauthorized};
pub use msg::{ExecMsg, InstantiateMsg, QueryMsg, ValueResp};
pub use response::{Attribute, BankSend, BankSendView, Response, ResponseView};
pub use state::{MessageInfo, State, StateView};

verus! {

/// Sets up a new instance from `msg`, owned by the caller.
pub fn instantiate(info: &MessageInfo, msg: InstantiateMsg) -> (r: (State, Response))
    ensures
        r.0@ == initial_state(info.sender@, msg.minimal_donation@),
        r.1@ == (ResponseView { messages: seq![], attributes: seq![] }),
{
    contract::instantiate(info, msg)
}

/// Runs one operation on `state`. `balance` is what the contract holds now;
/// only the withdrawals read it.
pub fn execute(state: &mut State, info: &MessageInfo, balance: Vec<Coin>, msg: ExecMsg) -> (r:
    Result<Response, ContractError>)
    requires
        msg is Donate ==> donation_fits(old(state)@, coins_view(info.funds@)),
    ensures
        match msg {
            ExecMsg::Donate => r is Ok && final(state)@ == after_donate(
                old(state)@,
                coins_view(info.funds@),
            ) && r->Ok_0@ == donate_response(
                info.sender@,
                old(state)@.minimal_donation,
                final(state).counter,
            ),
            ExecMsg::Reset { counter } => final(state)@ == after_reset(
                old(state)@,
                info.sender@,
                counter,
            ) && (r is Ok ==> r->Ok_0@ == reset_response(info.sender@, counter)),
            ExecMsg::Withdraw => final(state)@ == old(state)@ && (r is Ok ==> r->Ok_0@
                == withdraw_response(info.sender@, info.sender@, coins_view(balance@))),
            ExecMsg::WithdrawTo { receiver, funds } => final(state)@ == old(state)@ && (r is Ok
                ==> r->Ok_0@ == withdraw_response(
                info.sender@,
                receiver@,
                withdraw_to_amounts(coins_view(balance@), coins_view(funds@)),
            )),
        },
        !(msg is Donate) ==> (r is Ok <==> info.sender@ == old(state).owner@),
        r is Err ==> is_unauthorized(r->Err_0, old(state).owner@),
{
    match msg {
        ExecMsg::Donate => Ok(contract::donate(state, info)),
        ExecMsg::Reset { counter } => contract::reset(state, info, counter),
        ExecMsg::Withdraw => contract::withdraw(state, info, balance),
        ExecMsg::WithdrawTo { receiver, funds } => contract::withdraw_to(
            state,
            info,
            receiver,
            funds,
            balance,
        ),
    }
}

/// Answers a query; reading never changes the state.
pub fn query(state: &State, msg: QueryMsg) -> (r: ValueResp)
    ensures
        r.value == state.counter,
{
    match msg {
        QueryMsg::Value => contract::value(state),
    }
}

} // verus!
