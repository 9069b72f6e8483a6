use cosmwasm_std::StdError;
use cw_admins::contract::{execute, greet, instantiate, query};
use cw_admins::error::ContractError;
use cw_admins::msg::{AdminsListResp, ExecuteMsg, GreetResp, InstantiateMsg, QueryMsg, QueryResp};
use cw_admins::state::State;
use cw_admins::types::{Attribute, BankMsg, Coin, Event, MessageInfo, Response};

fn s(x: &str) -> String {
    x.to_owned()
}

fn info(sender: &str, funds: &[(u128, &str)]) -> MessageInfo {
    MessageInfo {
        sender: s(sender),
        funds: funds.iter().map(|(a, d)| Coin { denom: s(d), amount: *a }).collect(),
    }
}

/// The host's validation as the mock API of the chain does it for plain
/// lower-case names: every address passes unchanged.
fn all_ok(admins: &[String]) -> Vec<Result<String, StdError>> {
    admins.iter().map(|a| Ok(a.clone())).collect()
}

fn setup(admins: &[&str], denom: &str) -> State {
    let admins: Vec<String> = admins.iter().map(|a| s(a)).collect();
    let checked = all_ok(&admins);
    let msg = InstantiateMsg { admins, donation_denom: s(denom) };
    let (st, resp) = instantiate(msg, checked).unwrap();
    assert_eq!(resp, Response { messages: vec![], attributes: vec![], events: vec![] });
    st
}

fn attr_value<'a>(attrs: &'a [Attribute], key: &str) -> &'a str {
    &attrs.iter().find(|a| a.key == key).unwrap().value
}

#[test]
fn greet_query() {
    let st = setup(&[], "donation_denom");
    let resp = query(&st, QueryMsg::Greet {}).unwrap();
    assert_eq!(
        resp,
        QueryResp::Greet(GreetResp {
            message: "Hello World".to_owned(),
        })
    );
    assert_eq!(greet().unwrap(), GreetResp { message: "Hello World".to_owned() });
}

#[test]
fn instantantiation() {
    let st = setup(&[], "donation_denom");
    let resp = query(&st, QueryMsg::AdminsList {}).unwrap();
    assert_eq!(resp, QueryResp::AdminsList(AdminsListResp { admins: vec![] }));

    let st = setup(&["admin1", "admin2"], "donation_denom");
    let resp = query(&st, QueryMsg::AdminsList {}).unwrap();
    assert_eq!(
        resp,
        QueryResp::AdminsList(AdminsListResp {
            admins: vec!["admin1".to_owned(), "admin2".to_owned()]
        })
    );
    assert_eq!(st.donation_denom, "donation_denom");
}

#[test]
fn unauthorized() {
    let mut st = setup(&[], "donation_denom");
    let before = st.clone();
    let added = vec!["user".to_owned()];
    let checked = all_ok(&added);
    let err = execute(&mut st, &info("user", &[]), ExecuteMsg::AddMembers { admins: added }, checked)
        .unwrap_err();
    assert_eq!(
        ContractError::Unauthorized {
            sender: "user".to_owned()
        },
        err
    );
    assert_eq!(st, before);
}

#[test]
fn add_members() {
    let mut st = setup(&["owner"], "donation_denom");
    let added = vec!["user".to_owned()];
    let checked = all_ok(&added);
    let resp = execute(&mut st, &info("owner", &[]), ExecuteMsg::AddMembers { admins: added }, checked)
        .unwrap();

    assert_eq!(attr_value(&resp.attributes, "action"), "add_members");
    assert_eq!(attr_value(&resp.attributes, "added_count"), "1");

    let admin_added: Vec<&Event> = resp.events.iter().filter(|e| e.ty == "admin_added").collect();
    assert_eq!(attr_value(&admin_added[0].attributes, "addr"), "user");
    assert_eq!(st.admins, vec!["owner".to_owned(), "user".to_owned()]);
}

#[test]
fn donations() {
    let st = setup(&["admins", "admin2"], "eth");
    let resp = execute(&mut st.clone(), &info("user", &[(5, "eth")]), ExecuteMsg::Donate {}, vec![]).unwrap();

    // all 5 that the user sent were taken
    assert_eq!(attr_value(&resp.attributes, "amount"), "5");
    // each admin receives 2
    assert_eq!(attr_value(&resp.attributes, "per_admin"), "2");
    assert_eq!(
        resp.messages,
        vec![
            BankMsg::Send { to_address: s("admins"), amount: vec![Coin { denom: s("eth"), amount: 2 }] },
            BankMsg::Send { to_address: s("admin2"), amount: vec![Coin { denom: s("eth"), amount: 2 }] },
        ]
    );
    // the contract keeps 1
    let paid: u128 = resp
        .messages
        .iter()
        .map(|m| match m {
            BankMsg::Send { amount, .. } => amount.iter().map(|c| c.amount).sum::<u128>(),
        })
        .sum();
    assert_eq!(5 - paid, 1);
}
