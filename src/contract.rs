use vstd::prelude::*;

use crate::coin::{Coin, CoinView, coins_view, decimal, u64_text};
use crate::error::{ContractError, is_unauthorized};
use crate::msg::{InstantiateMsg, ValueResp};
use crate::response::{BankSend, BankSendView, Response, ResponseView};
use crate::state::{MessageInfo, State, StateView};

verus! {

// ---- The model ----

/// The state right after instantiation by `sender`.
pub open spec fn initial_state(sender: Seq<char>, minimal_donation: CoinView) -> StateView {
    StateView { counter: 0, minimal_donation, owner: sender }
}

/// Some attached coin has the minimal donation's denomination and at least
/// its amount.
pub open spec fn threshold_met(minimal: CoinView, funds: Seq<CoinView>) -> bool {
    exists|i: int|
        #![trigger funds[i]]
        0 <= i < funds.len() && funds[i].denom == minimal.denom && funds[i].amount
            >= minimal.amount
}

/// A donation of `funds` to `s` can be counted without the counter overflowing.
pub open spec fn donation_fits(s: StateView, funds: Seq<CoinView>) -> bool {
    threshold_met(s.minimal_donation, funds) ==> s.counter < u64::MAX
}

/// The state after a donation of `funds`.
pub open spec fn after_donate(s: StateView, funds: Seq<CoinView>) -> StateView {
    if threshold_met(s.minimal_donation, funds) {
        StateView { counter: (s.counter + 1) as u64, ..s }
    } else {
        s
    }
}

/// The state after `sender` asks to set the counter to `counter`.
pub open spec fn after_reset(s: StateView, sender: Seq<char>, counter: u64) -> StateView {
    if sender == s.owner {
        StateView { counter, ..s }
    } else {
        s
    }
}

/// The cap that `caps` sets on `denom`, looking from position `i` on: the
/// amount of the first coin of that denomination, or zero if there is none.
pub open spec fn cap_from(caps: Seq<CoinView>, denom: Seq<char>, i: nat) -> u128
    decreases caps.len() - i,
{
    if i >= caps.len() {
        0
    } else if caps[i as int].denom == denom {
        caps[i as int].amount
    } else {
        cap_from(caps, denom, i + 1)
    }
}

/// The cap that `caps` sets on `denom`.
pub open spec fn cap_for(caps: Seq<CoinView>, denom: Seq<char>) -> u128 {
    cap_from(caps, denom, 0)
}

/// The lesser of two amounts.
pub open spec fn min_amount(a: u128, b: u128) -> u128 {
    if a <= b {
        a
    } else {
        b
    }
}

/// One held coin, capped by `caps`.
pub open spec fn capped_coin(held: CoinView, caps: Seq<CoinView>) -> CoinView {
    CoinView { denom: held.denom, amount: min_amount(held.amount, cap_for(caps, held.denom)) }
}

/// What a withdrawal with the caps `caps` sends out of `balance`: all of it
/// when there are no caps, else each held coin capped.
pub open spec fn withdraw_to_amounts(balance: Seq<CoinView>, caps: Seq<CoinView>) -> Seq<CoinView> {
    if caps.len() == 0 {
        balance
    } else {
        balance.map_values(|c: CoinView| capped_coin(c, caps))
    }
}

/// What the contract keeps of `held` once `sent`, position by position, has
/// left it.
pub open spec fn remaining(held: Seq<CoinView>, sent: Seq<CoinView>) -> Seq<CoinView> {
    held.map(|i: int, c: CoinView| CoinView { denom: c.denom, amount: (c.amount - sent[i].amount) as u128 })
}

/// The response to a donation.
pub open spec fn donate_response(
    sender: Seq<char>,
    minimal: CoinView,
    counter: u64,
) -> ResponseView {
    ResponseView {
        messages: seq![],
        attributes: seq![
            ("action"@, "donate"@),
            ("sender"@, sender),
            ("minimal_donation"@, decimal(minimal.amount as nat) + minimal.denom),
            ("counter"@, decimal(counter as nat)),
        ],
    }
}

/// The response to a reset.
pub open spec fn reset_response(sender: Seq<char>, counter: u64) -> ResponseView {
    ResponseView {
        messages: seq![],
        attributes: seq![
            ("action"@, "reset"@),
            ("sender"@, sender),
            ("counter"@, decimal(counter as nat)),
        ],
    }
}

/// The response to a withdrawal: one transfer of `amount` to `to`.
pub open spec fn withdraw_response(
    sender: Seq<char>,
    to: Seq<char>,
    amount: Seq<CoinView>,
) -> ResponseView {
    ResponseView {
        messages: seq![BankSendView { to_address: to, amount }],
        attributes: seq![("action"@, "withdraw"@), ("sender"@, sender)],
    }
}

// ---- The operations ----

/// Sets up a new instance: the counter at zero, the caller as owner.
pub fn instantiate(info: &MessageInfo, msg: InstantiateMsg) -> (r: (State, Response))
    ensures
        r.0@ == initial_state(info.sender@, msg.minimal_donation@),
        r.1@ == (ResponseView { messages: seq![], attributes: seq![] }),
{
    let state = State {
        counter: 0,
        minimal_donation: msg.minimal_donation,
        owner: info.sender.clone(),
    };
    (state, Response::new())
}

/// The current counter.
pub fn value(state: &State) -> (r: ValueResp)
    ensures
        r.value == state.counter,
{
    ValueResp { value: state.counter }
}

/// Succeeds exactly when `sender` is the recorded owner; otherwise names the owner.
pub fn ensure_owner(state: &State, sender: &String) -> (r: Result<(), ContractError>)
    ensures
        r is Ok <==> sender@ == state.owner@,
        r is Err ==> is_unauthorized(r->Err_0, state.owner@),
{
    if *sender == state.owner {
        Ok(())
    } else {
        Err(ContractError::Unauthorized { owner: state.owner.clone() })
    }
}

/// The cap that `caps` sets on `denom`: the amount of the first coin of that
/// denomination, or zero if there is none.
pub fn cap_of(caps: &Vec<Coin>, denom: &String) -> (r: u128)
    ensures
        r == cap_for(coins_view(caps@), denom@),
{
    let ghost cv = coins_view(caps@);
    let mut i: usize = 0;
    while i < caps.len()
        invariant
            i <= caps.len(),
            cv == coins_view(caps@),
            cap_from(cv, denom@, i as nat) == cap_from(cv, denom@, 0),
        decreases caps.len() - i,
    {
        if caps[i].denom == *denom {
            return caps[i].amount;
        }
        i = i + 1;
    }
    0
}

/// The balance to send when withdrawing with the caps `caps`: all of it
/// when `caps` is empty, else each held coin clamped to its cap.
pub fn capped_balance(balance: Vec<Coin>, caps: &Vec<Coin>) -> (r: Vec<Coin>)
    ensures
        coins_view(r@) == withdraw_to_amounts(coins_view(balance@), coins_view(caps@)),
{
    if caps.len() == 0 {
        return balance;
    }
    let ghost bv = coins_view(balance@);
    let ghost cv = coins_view(caps@);
    let mut out: Vec<Coin> = Vec::new();
    let mut i: usize = 0;
    while i < balance.len()
        invariant
            i <= balance.len(),
            bv == coins_view(balance@),
            cv == coins_view(caps@),
            out@.len() == i,
            coins_view(out@) =~= bv.subrange(0, i as int).map_values(
                |c: CoinView| capped_coin(c, cv),
            ),
        decreases balance.len() - i,
    {
        let held = &balance[i];
        let cap = cap_of(caps, &held.denom);
        let amount = if held.amount <= cap {
            held.amount
        } else {
            cap
        };
        let ghost before = out@;
        out.push(Coin { denom: held.denom.clone(), amount });
        assert(out@[i as int]@ == capped_coin(bv[i as int], cv));
        assert(coins_view(out@) =~= coins_view(before).push(capped_coin(bv[i as int], cv)));
        i = i + 1;
    }
    assert(bv.subrange(0, i as int) =~= bv);
    out
}

/// Sends the contract's `balance` to `receiver`, capped by `funds` when it
/// is not empty (owner only).
pub fn withdraw_to(
    state: &State,
    info: &MessageInfo,
    receiver: String,
    funds: Vec<Coin>,
    balance: Vec<Coin>,
) -> (r: Result<Response, ContractError>)
    ensures
        r is Ok <==> info.sender@ == state.owner@,
        r is Ok ==> r->Ok_0@ == withdraw_response(
            info.sender@,
            receiver@,
            withdraw_to_amounts(coins_view(balance@), coins_view(funds@)),
        ),
        r is Err ==> is_unauthorized(r->Err_0, state.owner@),
{
    ensure_owner(state, &info.sender)?;
    let amount = capped_balance(balance, &funds);
    let resp = Response::new().add_message(BankSend { to_address: receiver, amount }).add_attribute(
        "action",
        String::from_str("withdraw"),
    ).add_attribute("sender", info.sender.clone());
    assert(resp@.messages =~= withdraw_response(info.sender@, receiver@, withdraw_to_amounts(coins_view(balance@), coins_view(funds@))).messages);
    assert(resp@.attributes =~= withdraw_response(info.sender@, receiver@, withdraw_to_amounts(coins_view(balance@), coins_view(funds@))).attributes);
    Ok(resp)
}

/// Whether `funds` hold a coin of `minimal`'s denomination with at least its
/// amount.
pub fn meets_minimal_donation(minimal: &Coin, funds: &Vec<Coin>) -> (r: bool)
    ensures
        r == threshold_met(minimal@, coins_view(funds@)),
{
    let ghost fv = coins_view(funds@);
    let mut i: usize = 0;
    while i < funds.len()
        invariant
            i <= funds.len(),
            fv == coins_view(funds@),
            forall|j: int|
                0 <= j < i ==> !(fv[j].denom == minimal.denom@ && fv[j].amount >= minimal.amount),
        decreases funds.len() - i,
    {
        if funds[i].denom == minimal.denom && funds[i].amount >= minimal.amount {
            assert(fv[i as int] == funds@[i as int]@);
            return true;
        }
        assert(fv[i as int] == funds@[i as int]@);
        i = i + 1;
    }
    false
}

/// Counts the call when its attached funds meet the minimal donation; any
/// caller may donate.
pub fn donate(state: &mut State, info: &MessageInfo) -> (r: Response)
    requires
        donation_fits(old(state)@, coins_view(info.funds@)),
    ensures
        final(state)@ == after_donate(old(state)@, coins_view(info.funds@)),
        r@ == donate_response(info.sender@, old(state)@.minimal_donation, final(state).counter),
{
    if meets_minimal_donation(&state.minimal_donation, &info.funds) {
        state.counter = state.counter + 1;
    }
    let resp = Response::new().add_attribute("action", String::from_str("donate")).add_attribute(
        "sender",
        info.sender.clone(),
    ).add_attribute("minimal_donation", state.minimal_donation.to_text()).add_attribute(
        "counter",
        u64_text(state.counter),
    );
    assert(resp@.messages =~= donate_response(info.sender@, state@.minimal_donation, state.counter).messages);
    assert(resp@.attributes =~= donate_response(info.sender@, state@.minimal_donation, state.counter).attributes);
    resp
}

/// Sets the counter to `counter` (owner only).
pub fn reset(state: &mut State, info: &MessageInfo, counter: u64) -> (r: Result<Response, ContractError>)
    ensures
        final(state)@ == after_reset(old(state)@, info.sender@, counter),
        r is Ok <==> info.sender@ == old(state).owner@,
        r is Ok ==> r->Ok_0@ == reset_response(info.sender@, counter),
        r is Err ==> is_unauthorized(r->Err_0, old(state).owner@),
{
    ensure_owner(state, &info.sender)?;
    state.counter = counter;
    let resp = Response::new().add_attribute("action", String::from_str("reset")).add_attribute(
        "sender",
        info.sender.clone(),
    ).add_attribute("counter", u64_text(counter));
    assert(resp@.messages =~= reset_response(info.sender@, counter).messages);
    assert(resp@.attributes =~= reset_response(info.sender@, counter).attributes);
    Ok(resp)
}

/// Sends the contract's whole `balance` to the owner (owner only).
pub fn withdraw(state: &State, info: &MessageInfo, balance: Vec<Coin>) -> (r: Result<
    Response,
    ContractError,
>)
    ensures
        r is Ok <==> info.sender@ == state.owner@,
        r is Ok ==> r->Ok_0@ == withdraw_response(info.sender@, info.sender@, coins_view(balance@)),
        r is Err ==> is_unauthorized(r->Err_0, state.owner@),
{
    ensure_owner(state, &info.sender)?;
    let resp = Response::new().add_message(
        BankSend { to_address: info.sender.clone(), amount: balance },
    ).add_attribute("action", String::from_str("withdraw")).add_attribute(
        "sender",
        info.sender.clone(),
    );
    assert(resp@.messages =~= withdraw_response(info.sender@, info.sender@, coins_view(balance@)).messages);
    assert(resp@.attributes =~= withdraw_response(info.sender@, info.sender@, coins_view(balance@)).attributes);
    Ok(resp)
}

} // verus!
