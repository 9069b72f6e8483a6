use cosmwasm_std::StdError;
use cw_admins::contract::{add_members, admins_list, donate, execute, instantiate, leave};
use cw_admins::decimal::u128_to_decimal;
use cw_admins::error::{ContractError, PaymentError};
use cw_admins::msg::{ExecuteMsg, InstantiateMsg};
use cw_admins::state::State;
use cw_admins::types::{coins, Attribute, BankMsg, Coin, Event, MessageInfo, Response};

fn s(x: &str) -> String {
    x.to_owned()
}

fn strings(xs: &[&str]) -> Vec<String> {
    xs.iter().map(|x| s(x)).collect()
}

fn info(sender: &str, funds: &[(u128, &str)]) -> MessageInfo {
    MessageInfo {
        sender: s(sender),
        funds: funds.iter().map(|(a, d)| Coin { denom: s(d), amount: *a }).collect(),
    }
}

fn all_ok(admins: &[String]) -> Vec<Result<String, StdError>> {
    admins.iter().map(|a| Ok(a.clone())).collect()
}

fn state(admins: &[&str], denom: &str) -> State {
    State { admins: strings(admins), donation_denom: s(denom) }
}

fn attr(k: &str, v: &str) -> Attribute {
    Attribute { key: s(k), value: s(v) }
}

#[test]
fn decimal_rendering() {
    assert_eq!(u128_to_decimal(0), "0");
    assert_eq!(u128_to_decimal(7), "7");
    assert_eq!(u128_to_decimal(10), "10");
    assert_eq!(u128_to_decimal(1234567890), "1234567890");
    assert_eq!(u128_to_decimal(u128::MAX), u128::MAX.to_string());
}

#[test]
fn instantiate_fails_with_first_invalid_address() {
    let msg = InstantiateMsg { admins: strings(&["good", "Bad", "X"]), donation_denom: s("eth") };
    let checked = vec![
        Ok(s("good")),
        Err(StdError::generic_err("not normalized")),
        Err(StdError::generic_err("too short")),
    ];
    let err = instantiate(msg, checked).unwrap_err();
    assert_eq!(err, StdError::generic_err("not normalized"));
}

#[test]
fn instantiate_keeps_order_and_duplicates() {
    let admins = strings(&["carol", "alice", "carol"]);
    let checked = all_ok(&admins);
    let (st, resp) = instantiate(InstantiateMsg { admins, donation_denom: s("atom") }, checked).unwrap();
    assert_eq!(st, state(&["carol", "alice", "carol"], "atom"));
    assert_eq!(resp, Response { messages: vec![], attributes: vec![], events: vec![] });
    assert_eq!(admins_list(&st).unwrap().admins, strings(&["carol", "alice", "carol"]));
}

#[test]
fn add_members_response_and_state() {
    let mut st = state(&["owner"], "eth");
    let added = strings(&["ann", "bob"]);
    let checked = all_ok(&added);
    let resp = add_members(&mut st, &info("owner", &[]), added, checked).unwrap();
    assert_eq!(
        resp,
        Response {
            messages: vec![],
            attributes: vec![attr("action", "add_members"), attr("added_count", "2")],
            events: vec![
                Event { ty: s("admin_added"), attributes: vec![attr("addr", "ann")] },
                Event { ty: s("admin_added"), attributes: vec![attr("addr", "bob")] },
            ],
        }
    );
    assert_eq!(st, state(&["owner", "ann", "bob"], "eth"));
}

#[test]
fn add_members_with_nothing_to_add() {
    let mut st = state(&["owner"], "eth");
    let resp = add_members(&mut st, &info("owner", &[]), vec![], vec![]).unwrap();
    assert_eq!(resp.attributes, vec![attr("action", "add_members"), attr("added_count", "0")]);
    assert!(resp.events.is_empty());
    assert_eq!(st, state(&["owner"], "eth"));
}

#[test]
fn add_members_invalid_address_leaves_state() {
    let mut st = state(&["owner"], "eth");
    let before = st.clone();
    let added = strings(&["ok1", "NO"]);
    let checked = vec![Ok(s("ok1")), Err(StdError::generic_err("invalid"))];
    let err = add_members(&mut st, &info("owner", &[]), added, checked).unwrap_err();
    assert_eq!(err, ContractError::StdError(StdError::generic_err("invalid")));
    assert_eq!(st, before);
}

#[test]
fn unauthorized_comes_before_invalid_address() {
    let mut st = state(&["owner"], "eth");
    let before = st.clone();
    let checked = vec![Err(StdError::generic_err("invalid"))];
    let err = add_members(&mut st, &info("stranger", &[]), strings(&["NO"]), checked).unwrap_err();
    assert_eq!(err, ContractError::Unauthorized { sender: s("stranger") });
    assert_eq!(st, before);
}

#[test]
fn added_member_may_add_members() {
    let mut st = state(&["owner"], "eth");
    let a = strings(&["ann"]);
    add_members(&mut st, &info("owner", &[]), a.clone(), all_ok(&a)).unwrap();
    let b = strings(&["bob"]);
    add_members(&mut st, &info("ann", &[]), b.clone(), all_ok(&b)).unwrap();
    assert_eq!(st, state(&["owner", "ann", "bob"], "eth"));
}

#[test]
fn leave_removes_every_entry_of_sender() {
    let mut st = state(&["ann", "bob", "ann", "cid"], "eth");
    let resp = leave(&mut st, &info("ann", &[])).unwrap();
    assert_eq!(resp, Response { messages: vec![], attributes: vec![], events: vec![] });
    assert_eq!(st, state(&["bob", "cid"], "eth"));
    // leaving again changes nothing
    leave(&mut st, &info("ann", &[])).unwrap();
    assert_eq!(st, state(&["bob", "cid"], "eth"));
}

#[test]
fn left_admin_cannot_add_members() {
    let mut st = state(&["ann", "bob"], "eth");
    execute(&mut st, &info("ann", &[]), ExecuteMsg::Leave {}, vec![]).unwrap();
    let x = strings(&["eve"]);
    let err = execute(&mut st, &info("ann", &[]), ExecuteMsg::AddMembers { admins: x.clone() }, all_ok(&x))
        .unwrap_err();
    assert_eq!(err, ContractError::Unauthorized { sender: s("ann") });
    assert_eq!(st, state(&["bob"], "eth"));
}

#[test]
fn donate_duplicate_admin_gets_two_shares() {
    let st = state(&["ann", "bob", "ann"], "eth");
    let resp = donate(&st, &info("user", &[(10, "eth")])).unwrap();
    assert_eq!(
        resp.attributes,
        vec![attr("action", "donate"), attr("amount", "10"), attr("per_admin", "3")]
    );
    let to_ann: u128 = resp
        .messages
        .iter()
        .map(|m| match m {
            BankMsg::Send { to_address, amount } if to_address == "ann" => amount[0].amount,
            _ => 0,
        })
        .sum();
    assert_eq!(to_ann, 6);
    assert_eq!(resp.messages.len(), 3);
    assert!(resp.events.is_empty());
}

#[test]
fn donate_share_can_be_zero() {
    let st = state(&["a1a", "b2b", "c3c"], "eth");
    let resp = donate(&st, &info("user", &[(2, "eth")])).unwrap();
    assert_eq!(resp.attributes[2], attr("per_admin", "0"));
    assert_eq!(
        resp.messages[0],
        BankMsg::Send { to_address: s("a1a"), amount: vec![Coin { denom: s("eth"), amount: 0 }] }
    );
}

#[test]
fn donate_payment_errors() {
    let st = state(&["ann"], "eth");
    assert_eq!(
        donate(&st, &info("user", &[])).unwrap_err(),
        ContractError::Payment(PaymentError::NoFunds {})
    );
    assert_eq!(
        donate(&st, &info("user", &[(0, "eth")])).unwrap_err(),
        ContractError::Payment(PaymentError::NoFunds {})
    );
    assert_eq!(
        donate(&st, &info("user", &[(5, "btc")])).unwrap_err(),
        ContractError::Payment(PaymentError::MissingDenom(s("eth")))
    );
    assert_eq!(
        donate(&st, &info("user", &[(5, "eth"), (1, "btc")])).unwrap_err(),
        ContractError::Payment(PaymentError::MultipleDenoms {})
    );
}

#[test]
fn donate_without_admins_refuses_bad_payment() {
    let st = state(&[], "eth");
    assert_eq!(
        donate(&st, &info("user", &[(5, "btc")])).unwrap_err(),
        ContractError::Payment(PaymentError::MissingDenom(s("eth")))
    );
}

#[test]
fn donate_leaves_state_unchanged() {
    let mut st = state(&["ann", "bob"], "eth");
    let before = st.clone();
    let resp = execute(&mut st, &info("user", &[(7, "eth")]), ExecuteMsg::Donate {}, vec![]).unwrap();
    assert_eq!(st, before);
    assert_eq!(resp.attributes[1], attr("amount", "7"));
    assert_eq!(resp.attributes[2], attr("per_admin", "3"));
}

#[test]
fn coins_builds_one_coin() {
    assert_eq!(coins(42, &s("uatom")), vec![Coin { denom: s("uatom"), amount: 42 }]);
}
