use counting_contract::contract::{
    cap_of, capped_balance, donate, ensure_owner, meets_minimal_donation, reset, value, withdraw,
    withdraw_to,
};
use counting_contract::{
    execute, instantiate, query, Attribute, BankSend, Coin, ContractError, ExecMsg,
    InstantiateMsg, MessageInfo, QueryMsg, State, ValueResp,
};

fn coin(amount: u128, denom: &str) -> Coin {
    Coin::new(amount, denom.to_string())
}

fn info(sender: &str, funds: Vec<Coin>) -> MessageInfo {
    MessageInfo { sender: sender.to_string(), funds }
}

fn fresh(minimal_donation: Coin) -> State {
    instantiate(&info("owner", vec![]), InstantiateMsg { minimal_donation }).0
}

fn attrs(pairs: &[(&str, &str)]) -> Vec<Attribute> {
    pairs
        .iter()
        .map(|(k, v)| Attribute { key: k.to_string(), value: v.to_string() })
        .collect()
}

#[test]
fn instantiate_sets_initial_state() {
    let (state, resp) = instantiate(
        &info("creator", vec![coin(7, "atom")]),
        InstantiateMsg { minimal_donation: coin(1000, "atom") },
    );
    assert_eq!(state.counter, 0);
    assert_eq!(state.owner, "creator");
    assert_eq!(state.minimal_donation, coin(1000, "atom"));
    assert!(resp.messages.is_empty());
    assert!(resp.attributes.is_empty());
    assert_eq!(value(&state), ValueResp { value: 0 });
}

#[test]
fn donation_threshold_scenario() {
    let mut state = fresh(coin(1000, "atom"));
    donate(&mut state, &info("alice", vec![coin(999, "atom")]));
    assert_eq!(query(&state, QueryMsg::Value), ValueResp { value: 0 });
    donate(&mut state, &info("alice", vec![coin(1000, "atom")]));
    assert_eq!(query(&state, QueryMsg::Value), ValueResp { value: 1 });
    donate(&mut state, &info("alice", vec![coin(1000, "uatom")]));
    assert_eq!(query(&state, QueryMsg::Value), ValueResp { value: 1 });
}

#[test]
fn donate_any_caller_and_mixed_funds() {
    let mut state = fresh(coin(10, "atom"));
    donate(&mut state, &info("stranger", vec![coin(5, "uatom"), coin(12, "atom")]));
    assert_eq!(state.counter, 1);
    donate(&mut state, &info("owner", vec![coin(10, "atom")]));
    assert_eq!(state.counter, 2);
    // Amounts are not summed across coins.
    donate(&mut state, &info("stranger", vec![coin(6, "atom"), coin(6, "atom")]));
    assert_eq!(state.counter, 2);
    assert_eq!(state.owner, "owner");
    assert_eq!(state.minimal_donation, coin(10, "atom"));
}

#[test]
fn donate_response_attributes() {
    let mut state = fresh(coin(1000, "atom"));
    let resp = donate(&mut state, &info("alice", vec![coin(1000, "atom")]));
    assert!(resp.messages.is_empty());
    assert_eq!(
        resp.attributes,
        attrs(&[
            ("action", "donate"),
            ("sender", "alice"),
            ("minimal_donation", "1000atom"),
            ("counter", "1"),
        ])
    );
    let resp = donate(&mut state, &info("bob", vec![]));
    assert_eq!(resp.attributes[3], Attribute { key: "counter".to_string(), value: "1".to_string() });
}

#[test]
fn reset_scenario() {
    let mut state = fresh(coin(1, "atom"));
    for _ in 0..3 {
        donate(&mut state, &info("alice", vec![coin(1, "atom")]));
    }
    assert_eq!(value(&state), ValueResp { value: 3 });
    let resp = reset(&mut state, &info("owner", vec![]), 50).unwrap();
    assert_eq!(query(&state, QueryMsg::Value), ValueResp { value: 50 });
    assert_eq!(
        resp.attributes,
        attrs(&[("action", "reset"), ("sender", "owner"), ("counter", "50")])
    );
    reset(&mut state, &info("owner", vec![]), 2).unwrap();
    assert_eq!(value(&state), ValueResp { value: 2 });
}

#[test]
fn reset_largest_value_text() {
    let mut state = fresh(coin(1, "atom"));
    let resp = reset(&mut state, &info("owner", vec![]), u64::MAX).unwrap();
    assert_eq!(state.counter, u64::MAX);
    assert_eq!(resp.attributes[2].value, "18446744073709551615");
}

#[test]
fn unauthorized_reset_keeps_state() {
    let mut state = fresh(coin(1, "atom"));
    reset(&mut state, &info("owner", vec![]), 4).unwrap();
    let before = state.clone();
    let err = reset(&mut state, &info("Owner", vec![]), 9).unwrap_err();
    assert_eq!(err, ContractError::Unauthorized { owner: "owner".to_string() });
    assert_eq!(state, before);
}

#[test]
fn guard_is_exact_match() {
    let state = fresh(coin(1, "atom"));
    assert_eq!(ensure_owner(&state, &"owner".to_string()), Ok(()));
    assert_eq!(
        ensure_owner(&state, &"owner ".to_string()),
        Err(ContractError::Unauthorized { owner: "owner".to_string() })
    );
}

#[test]
fn withdraw_sends_everything_to_owner() {
    let state = fresh(coin(1, "atom"));
    let balance = vec![coin(10, "atom"), coin(5, "uatom")];
    let resp = withdraw(&state, &info("owner", vec![]), balance.clone()).unwrap();
    assert_eq!(
        resp.messages,
        vec![BankSend { to_address: "owner".to_string(), amount: balance }]
    );
    assert_eq!(resp.attributes, attrs(&[("action", "withdraw"), ("sender", "owner")]));
}

#[test]
fn withdraw_empty_balance() {
    let state = fresh(coin(1, "atom"));
    let resp = withdraw(&state, &info("owner", vec![]), vec![]).unwrap();
    assert_eq!(resp.messages.len(), 1);
    assert!(resp.messages[0].amount.is_empty());
}

#[test]
fn withdraw_to_caps_scenario() {
    let state = fresh(coin(1, "atom"));
    let balance = vec![coin(10, "atom"), coin(5, "uatom")];
    let resp = withdraw_to(
        &state,
        &info("owner", vec![]),
        "receiver".to_string(),
        vec![coin(8, "atom")],
        balance,
    )
    .unwrap();
    assert_eq!(
        resp.messages,
        vec![BankSend {
            to_address: "receiver".to_string(),
            amount: vec![coin(8, "atom"), coin(0, "uatom")],
        }]
    );
    let kept: Vec<u128> = [10u128, 5].iter().zip(&resp.messages[0].amount).map(|(h, s)| h - s.amount).collect();
    assert_eq!(kept, vec![2, 5]);
    assert_eq!(resp.attributes, attrs(&[("action", "withdraw"), ("sender", "owner")]));
}

#[test]
fn withdraw_to_without_caps_sends_all() {
    let state = fresh(coin(1, "atom"));
    let balance = vec![coin(10, "atom"), coin(5, "uatom")];
    let resp =
        withdraw_to(&state, &info("owner", vec![]), "r".to_string(), vec![], balance.clone())
            .unwrap();
    assert_eq!(resp.messages[0].amount, balance);
    assert_eq!(resp.messages[0].to_address, "r");
}

#[test]
fn caps_never_raise_and_first_cap_wins() {
    let caps = vec![coin(100, "atom"), coin(1, "atom"), coin(3, "uatom")];
    assert_eq!(cap_of(&caps, &"atom".to_string()), 100);
    assert_eq!(cap_of(&caps, &"uatom".to_string()), 3);
    assert_eq!(cap_of(&caps, &"btc".to_string()), 0);
    let out = capped_balance(vec![coin(10, "atom"), coin(5, "uatom"), coin(7, "btc")], &caps);
    assert_eq!(out, vec![coin(10, "atom"), coin(3, "uatom"), coin(0, "btc")]);
}

#[test]
fn threshold_boundaries() {
    let min = coin(10, "atom");
    assert!(meets_minimal_donation(&min, &vec![coin(10, "atom")]));
    assert!(!meets_minimal_donation(&min, &vec![coin(9, "atom")]));
    assert!(!meets_minimal_donation(&min, &vec![]));
    assert!(!meets_minimal_donation(&min, &vec![coin(10, "Atom")]));
    assert!(meets_minimal_donation(&coin(0, "atom"), &vec![coin(0, "atom")]));
}

#[test]
fn coin_text_form() {
    assert_eq!(coin(1000, "atom").to_text(), "1000atom");
    assert_eq!(coin(0, "uatom").to_text(), "0uatom");
    assert_eq!(coin(u128::MAX, "x").to_text(), "340282366920938463463374607431768211455x");
}

#[test]
fn execute_dispatches() {
    let mut state = fresh(coin(10, "atom"));
    let balance = vec![coin(10, "atom")];
    execute(&mut state, &info("a", vec![coin(10, "atom")]), vec![], ExecMsg::Donate).unwrap();
    assert_eq!(state.counter, 1);
    execute(&mut state, &info("owner", vec![]), vec![], ExecMsg::Reset { counter: 7 }).unwrap();
    assert_eq!(state.counter, 7);
    let err = execute(&mut state, &info("a", vec![]), balance.clone(), ExecMsg::Withdraw)
        .unwrap_err();
    assert_eq!(err, ContractError::Unauthorized { owner: "owner".to_string() });
    let resp = execute(&mut state, &info("owner", vec![]), balance.clone(), ExecMsg::Withdraw)
        .unwrap();
    assert_eq!(resp.messages[0].amount, balance);
    let resp = execute(
        &mut state,
        &info("owner", vec![]),
        balance,
        ExecMsg::WithdrawTo { receiver: "r".to_string(), funds: vec![coin(4, "atom")] },
    )
    .unwrap();
    assert_eq!(resp.messages[0].amount, vec![coin(4, "atom")]);
    assert_eq!(state.counter, 7);
}
