//! What the contract does on instantiation, on each message it executes and
//! on each query, as functions of its state and the message.
use vstd::prelude::*;
use cosmwasm_std::StdError;
use crate::decimal::{decimal, u128_to_decimal};
use crate::error::ContractError;
use crate::msg::{AdminsListResp, ExecuteMsg, GreetResp, InstantiateMsg, QueryMsg, QueryResp};
use crate::payment::{must_pay, must_pay_spec};
use crate::state::{strings, State};
use crate::types::{
    attr, coins, empty_response, BankMsg, BankMsgView, CoinView, Event, EventView, MessageInfo,
    Response, ResponseView,
};

verus! {

// ---------------------------------------------------------------------------
// Address validation outcomes
// ---------------------------------------------------------------------------

/// Every address passed validation.
pub open spec fn all_valid(checked: Seq<Result<String, StdError>>) -> bool {
    forall|i: int| 0 <= i < checked.len() ==> (#[trigger] checked[i]) is Ok
}

/// The validated addresses, in order (meaningful where `all_valid` holds).
pub open spec fn valid_addrs(checked: Seq<Result<String, StdError>>) -> Seq<Seq<char>> {
    checked.map_values(
        |r: Result<String, StdError>|
            match r {
                Ok(a) => a@,
                Err(_) => Seq::empty(),
            },
    )
}

/// Validation failed at `i` and at no earlier address.
pub open spec fn first_invalid(checked: Seq<Result<String, StdError>>, i: int) -> bool {
    &&& 0 <= i < checked.len()
    &&& checked[i] is Err
    &&& forall|j: int| 0 <= j < i ==> (#[trigger] checked[j]) is Ok
}

/// The first failed validation, if any; otherwise all the validated
/// addresses in order (as collecting the outcomes into one `Result` does).
fn collect_addrs(checked: Vec<Result<String, StdError>>) -> (res: Result<Vec<String>, StdError>)
    ensures
        res is Ok <==> all_valid(checked@),
        res matches Ok(v) ==> strings(v@) == valid_addrs(checked@),
        res matches Err(e) ==> exists|i: int|
            first_invalid(checked@, i) && checked@[i] == Err::<String, StdError>(e),
{
    let mut out: Vec<String> = Vec::new();
    let mut i: usize = 0;
    while i < checked.len()
        invariant
            i <= checked@.len(),
            forall|j: int| 0 <= j < i ==> (#[trigger] checked@[j]) is Ok,
            out@.len() == i,
            strings(out@) == valid_addrs(checked@).subrange(0, i as int),
        decreases checked@.len() - i,
    {
        if checked[i].is_err() {
            let mut rest = checked;
            let r = rest.remove(i);
            match r {
                Err(e) => {
                    assert(first_invalid(checked@, i as int));
                    return Err(e);
                },
                Ok(_) => {
                    return Err(vstd::pervasive::unreached());
                },
            }
        }
        match &checked[i] {
            Ok(a) => {
                out.push(a.clone());
                assert(strings(out@) =~= valid_addrs(checked@).subrange(0, i + 1));
            },
            Err(_) => {},
        }
        i = i + 1;
    }
    assert(valid_addrs(checked@).subrange(0, i as int) =~= valid_addrs(checked@));
    Ok(out)
}

/// Whether `who` is among `admins`.
fn contains_addr(admins: &Vec<String>, who: &String) -> (res: bool)
    ensures
        res == strings(admins@).contains(who@),
{
    let mut i: usize = 0;
    while i < admins.len()
        invariant
            i <= admins@.len(),
            forall|j: int| 0 <= j < i ==> strings(admins@)[j] != who@,
        decreases admins@.len() - i,
    {
        if admins[i] == *who {
            assert(strings(admins@)[i as int] == who@);
            return true;
        }
        i = i + 1;
    }
    false
}

// ---------------------------------------------------------------------------
// Instantiation and queries
// ---------------------------------------------------------------------------

/// The state that instantiation stores: `msg`'s admins, each as the host's
/// address validation in `checked` returned it, and its donation
/// denomination. Fails with the first failed validation.
pub fn instantiate(msg: InstantiateMsg, checked: Vec<Result<String, StdError>>) -> (res: Result<(State, Response), StdError>)
    requires
        checked@.len() == msg.admins@.len(),
    ensures
        res is Ok <==> all_valid(checked@),
        res matches Ok((st, r)) ==> {
            &&& st@.admins == valid_addrs(checked@)
            &&& st@.donation_denom == msg.donation_denom@
            &&& r@ == empty_response()
        },
        res matches Err(e) ==> exists|i: int|
            first_invalid(checked@, i) && checked@[i] == Err::<String, StdError>(e),
{
    let admins = collect_addrs(checked)?;
    let st = State { admins, donation_denom: msg.donation_denom };
    let r = Response::new();
    Ok((st, r))
}

/// The greeting: always "Hello World".
pub fn greet() -> (res: Result<GreetResp, StdError>)
    ensures
        res matches Ok(g) && g.message@ == "Hello World"@,
{
    Ok(GreetResp { message: "Hello World".to_owned() })
}

/// The admins, in their stored order.
pub fn admins_list(state: &State) -> (res: Result<AdminsListResp, StdError>)
    ensures
        res matches Ok(r) && strings(r.admins@) == state@.admins,
{
    let mut admins: Vec<String> = Vec::new();
    let mut i: usize = 0;
    while i < state.admins.len()
        invariant
            i <= state.admins@.len(),
            admins@.len() == i,
            strings(admins@) == strings(state.admins@).subrange(0, i as int),
        decreases state.admins@.len() - i,
    {
        admins.push(state.admins[i].clone());
        assert(strings(admins@) =~= strings(state.admins@).subrange(0, i + 1));
        i = i + 1;
    }
    assert(strings(state.admins@).subrange(0, i as int) =~= strings(state.admins@));
    Ok(AdminsListResp { admins })
}

/// The answer to `msg`.
pub fn query(state: &State, msg: QueryMsg) -> (res: Result<QueryResp, StdError>)
    ensures
        match msg {
            QueryMsg::Greet {} => res matches Ok(QueryResp::Greet(g)) && g.message@ == "Hello World"@,
            QueryMsg::AdminsList {} => res matches Ok(QueryResp::AdminsList(r))
                && strings(r.admins@) == state@.admins,
        },
{
    match msg {
        QueryMsg::Greet {} => Ok(QueryResp::Greet(greet()?)),
        QueryMsg::AdminsList {} => Ok(QueryResp::AdminsList(admins_list(state)?)),
    }
}

// ---------------------------------------------------------------------------
// Executed messages
// ---------------------------------------------------------------------------

/// The event that announces one added admin.
pub open spec fn admin_added_event(addr: Seq<char>) -> EventView {
    EventView { ty: "admin_added"@, attributes: seq![attr("addr"@, addr)] }
}

/// The response to adding `added` as admins: one `admin_added` event per
/// address, in order, and the attributes `action` and `added_count`.
pub open spec fn add_members_response(added: Seq<Seq<char>>) -> ResponseView {
    ResponseView {
        messages: Seq::empty(),
        attributes: seq![attr("action"@, "add_members"@), attr("added_count"@, decimal(added.len()))],
        events: added.map_values(|a: Seq<char>| admin_added_event(a)),
    }
}

/// One `admin_added` event for each address in `admins`, in order.
fn admin_added_events(admins: &Vec<String>) -> (events: Vec<Event>)
    ensures
        events@.map_values(|e: Event| e@) == strings(admins@).map_values(|a: Seq<char>| admin_added_event(a)),
{
    let mut events: Vec<Event> = Vec::new();
    let mut i: usize = 0;
    while i < admins.len()
        invariant
            i <= admins@.len(),
            events@.len() == i,
            forall|j: int| 0 <= j < i ==> (#[trigger] events@[j])@ == admin_added_event(admins@[j]@),
        decreases admins@.len() - i,
    {
        let e = Event::new("admin_added").add_attribute("addr", admins[i].clone());
        assert(e@.attributes =~= seq![attr("addr"@, admins@[i as int]@)]);
        events.push(e);
        i = i + 1;
    }
    assert(events@.map_values(|e: Event| e@) =~= strings(admins@).map_values(|a: Seq<char>| admin_added_event(a)));
    events
}

/// An admin adds `admins`, each as the host's address validation in
/// `checked` returned it, at the end of the list. A sender who is no admin
/// is refused; otherwise the first failed validation, if any, is the error.
/// The state changes only on success.
pub fn add_members(
    state: &mut State,
    info: &MessageInfo,
    admins: Vec<String>,
    checked: Vec<Result<String, StdError>>,
) -> (res: Result<Response, ContractError>)
    requires
        checked@.len() == admins@.len(),
    ensures
        !old(state)@.admins.contains(info@.sender) ==> {
            &&& res matches Err(ContractError::Unauthorized { sender }) && sender@ == info@.sender
            &&& *final(state) == *old(state)
        },
        old(state)@.admins.contains(info@.sender) && !all_valid(checked@) ==> {
            &&& res matches Err(ContractError::StdError(e)) && exists|i: int|
                first_invalid(checked@, i) && checked@[i] == Err::<String, StdError>(e)
            &&& *final(state) == *old(state)
        },
        old(state)@.admins.contains(info@.sender) && all_valid(checked@) ==> {
            &&& res matches Ok(r) && r@ == add_members_response(strings(admins@))
            &&& final(state)@.admins == old(state)@.admins + valid_addrs(checked@)
            &&& final(state).donation_denom == old(state).donation_denom
        },
{
    if !contains_addr(&state.admins, &info.sender) {
        return Err(ContractError::Unauthorized { sender: info.sender.clone() });
    }
    let events = admin_added_events(&admins);
    let resp = Response::new()
        .add_events(events)
        .add_attribute("action", "add_members".to_owned())
        .add_attribute("added_count", u128_to_decimal(admins.len() as u128));
    assert(resp@.events =~= strings(admins@).map_values(|a: Seq<char>| admin_added_event(a)));
    assert(resp@.attributes =~= add_members_response(strings(admins@)).attributes);
    assert(resp@.messages =~= Seq::<BankMsgView>::empty());
    assert(resp@ == add_members_response(strings(admins@)));
    let mut added = match collect_addrs(checked) {
        Ok(v) => v,
        Err(e) => return Err(ContractError::StdError(e)),
    };
    let ghost before = state.admins@;
    let ghost new = added@;
    state.admins.append(&mut added);
    assert(strings(state.admins@) =~= strings(before) + strings(new));
    Ok(resp)
}

/// Whether an address is another than `who`.
pub open spec fn other_than(who: Seq<char>) -> spec_fn(Seq<char>) -> bool {
    |a: Seq<char>| a != who
}

/// The admins without the address `who`, the others in their order.
pub open spec fn without(admins: Seq<Seq<char>>, who: Seq<char>) -> Seq<Seq<char>> {
    admins.filter(other_than(who))
}

/// Leaving keeps the other admins in their order: an admin after the others
/// stays after them.
pub proof fn lemma_without_push(s: Seq<Seq<char>>, who: Seq<char>, a: Seq<char>)
    ensures
        without(s.push(a), who) == if a != who { without(s, who).push(a) } else { without(s, who) },
{
    reveal(Seq::filter);
    assert(s.push(a).drop_last() =~= s);
}

/// The sender stops being an admin: every occurrence of it leaves the list,
/// the other admins keep their order.
pub fn leave(state: &mut State, info: &MessageInfo) -> (res: Result<Response, StdError>)
    ensures
        res matches Ok(r) && r@ == empty_response(),
        final(state)@.admins == without(old(state)@.admins, info@.sender),
        final(state).donation_denom == old(state).donation_denom,
{
    let mut kept: Vec<String> = Vec::new();
    let mut i: usize = 0;
    while i < state.admins.len()
        invariant
            i <= state.admins@.len(),
            strings(kept@) == without(strings(state.admins@).subrange(0, i as int), info@.sender),
        decreases state.admins@.len() - i,
    {
        let ghost s = strings(state.admins@);
        proof {
            assert(s.subrange(0, i + 1) =~= s.subrange(0, i as int).push(s[i as int]));
            lemma_without_push(s.subrange(0, i as int), info@.sender, s[i as int]);
        }
        let ghost before = kept@;
        if state.admins[i] != info.sender {
            kept.push(state.admins[i].clone());
            assert(strings(kept@) =~= strings(before).push(s[i as int]));
        }
        i = i + 1;
    }
    assert(strings(state.admins@).subrange(0, i as int) =~= strings(state.admins@));
    state.admins = kept;
    Ok(Response::new())
}

/// What each admin entry receives of a donation of `amount`.
pub open spec fn share(amount: u128, n: nat) -> u128 {
    (amount as int / n as int) as u128
}

/// The transfer of `per_admin` in `denom` to `admin`.
pub open spec fn send_share(admin: Seq<char>, denom: Seq<char>, per_admin: u128) -> BankMsgView {
    BankMsgView::Send { to_address: admin, amount: seq![CoinView { denom, amount: per_admin }] }
}

/// One transfer of `per_admin` to each admin entry, in order.
pub open spec fn share_msgs(admins: Seq<Seq<char>>, denom: Seq<char>, per_admin: u128) -> Seq<BankMsgView> {
    admins.map_values(|a: Seq<char>| send_share(a, denom, per_admin))
}

/// The response to a donation of `amount` in `denom`: one transfer of the
/// share to each admin entry, in order, and the attributes `action`,
/// `amount` and `per_admin`.
pub open spec fn donate_response(admins: Seq<Seq<char>>, denom: Seq<char>, amount: u128) -> ResponseView {
    let per_admin = share(amount, admins.len());
    ResponseView {
        messages: share_msgs(admins, denom, per_admin),
        attributes: seq![
            attr("action"@, "donate"@),
            attr("amount"@, decimal(amount as nat)),
            attr("per_admin"@, decimal(per_admin as nat)),
        ],
        events: Seq::empty(),
    }
}

/// Shares the funds sent out equally among the admin entries (an address
/// listed twice gets two shares); what does not divide evenly stays with the
/// contract. Fails when the funds are not one non-zero coin of the donation
/// denomination. There must be an admin unless the payment fails.
pub fn donate(state: &State, info: &MessageInfo) -> (res: Result<Response, ContractError>)
    requires
        state.admins@.len() > 0 || must_pay_spec(info@.funds, state.donation_denom@) is Err,
    ensures
        match must_pay_spec(info@.funds, state@.donation_denom) {
            Ok(amount) => res matches Ok(r) && r@ == donate_response(state@.admins, state@.donation_denom, amount),
            Err(pe) => res matches Err(ContractError::Payment(e)) && e@ == pe,
        },
{
    let donation = match must_pay(info, &state.donation_denom) {
        Ok(a) => a,
        Err(e) => return Err(ContractError::Payment(e)),
    };
    let n = state.admins.len() as u128;
    let per_admin = donation / n;
    let ghost msgs = share_msgs(strings(state.admins@), state@.donation_denom, per_admin);
    let mut resp = Response::new();
    let mut i: usize = 0;
    while i < state.admins.len()
        invariant
            i <= state.admins@.len(),
            resp@.messages == msgs.subrange(0, i as int),
            resp@.attributes.len() == 0,
            resp@.events.len() == 0,
            msgs == share_msgs(strings(state.admins@), state@.donation_denom, per_admin),
        decreases state.admins@.len() - i,
    {
        let amount = coins(per_admin, &state.donation_denom);
        let msg = BankMsg::Send { to_address: state.admins[i].clone(), amount };
        assert(msg@ == msgs[i as int]);
        resp = resp.add_message(msg);
        assert(resp@.messages =~= msgs.subrange(0, i + 1));
        i = i + 1;
    }
    assert(msgs.subrange(0, i as int) =~= msgs);
    let resp = resp
        .add_attribute("action", "donate".to_owned())
        .add_attribute("amount", u128_to_decimal(donation))
        .add_attribute("per_admin", u128_to_decimal(per_admin));
    assert(resp@.attributes =~= donate_response(state@.admins, state@.donation_denom, donation).attributes);
    assert(resp@.events =~= Seq::<EventView>::empty());
    Ok(resp)
}

/// Executes `msg` sent by `info`'s sender. For `AddMembers`, `checked` holds
/// the host's validation of each address to add.
pub fn execute(
    state: &mut State,
    info: &MessageInfo,
    msg: ExecuteMsg,
    checked: Vec<Result<String, StdError>>,
) -> (res: Result<Response, ContractError>)
    requires
        msg matches ExecuteMsg::AddMembers { admins } ==> checked@.len() == admins@.len(),
        msg is Donate ==> old(state).admins@.len() > 0
            || must_pay_spec(info@.funds, old(state).donation_denom@) is Err,
    ensures
        match msg {
            ExecuteMsg::AddMembers { admins } => {
                &&& !old(state)@.admins.contains(info@.sender) ==> {
                    &&& res matches Err(ContractError::Unauthorized { sender }) && sender@ == info@.sender
                    &&& *final(state) == *old(state)
                }
                &&& old(state)@.admins.contains(info@.sender) && !all_valid(checked@) ==> {
                    &&& res matches Err(ContractError::StdError(e)) && exists|i: int|
                        first_invalid(checked@, i) && checked@[i] == Err::<String, StdError>(e)
                    &&& *final(state) == *old(state)
                }
                &&& old(state)@.admins.contains(info@.sender) && all_valid(checked@) ==> {
                    &&& res matches Ok(r) && r@ == add_members_response(strings(admins@))
                    &&& final(state)@.admins == old(state)@.admins + valid_addrs(checked@)
                    &&& final(state).donation_denom == old(state).donation_denom
                }
            },
            ExecuteMsg::Leave {} => {
                &&& res matches Ok(r) && r@ == empty_response()
                &&& final(state)@.admins == without(old(state)@.admins, info@.sender)
                &&& final(state).donation_denom == old(state).donation_denom
            },
            ExecuteMsg::Donate {} => {
                &&& *final(state) == *old(state)
                &&& match must_pay_spec(info@.funds, old(state)@.donation_denom) {
                    Ok(amount) => res matches Ok(r)
                        && r@ == donate_response(old(state)@.admins, old(state)@.donation_denom, amount),
                    Err(pe) => res matches Err(ContractError::Payment(e)) && e@ == pe,
                }
            },
        },
{
    match msg {
        ExecuteMsg::AddMembers { admins } => add_members(state, info, admins, checked),
        ExecuteMsg::Leave {} => match leave(state, info) {
            Ok(r) => Ok(r),
            Err(e) => Err(ContractError::StdError(e)),
        },
        ExecuteMsg::Donate {} => donate(state, info),
    }
}

} // verus!
