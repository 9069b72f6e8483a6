//! Properties of the contract that span several calls or hold of every
//! state, stated over the same spec functions as the contracts of
//! `contract`.
use vstd::prelude::*;
use cosmwasm_std::StdError;
use crate::contract::{
    add_members_response, all_valid, donate_response, other_than, share, share_msgs, valid_addrs, without,
};
use crate::decimal::decimal;
use crate::error::PaymentErrorView;
use crate::payment::must_pay_spec;
use crate::types::{attr, BankMsgView, CoinView};

verus! {

/// Instantiation stores every validated address, in the order given, so an
/// `AdminsList` query right after it lists exactly those addresses.
pub proof fn law_instantiate_stores_validated_admins(checked: Seq<Result<String, StdError>>)
    requires
        all_valid(checked),
    ensures
        valid_addrs(checked).len() == checked.len(),
        forall|i: int| 0 <= i < checked.len() ==>
            ((#[trigger] checked[i]) matches Ok(a) && valid_addrs(checked)[i] == a@),
{
}

/// Adding members keeps the admins there were, in order, ahead of the new
/// ones; and every address added is an admin afterwards, so it may add
/// members itself.
pub proof fn law_added_members_become_admins(admins: Seq<Seq<char>>, added: Seq<Seq<char>>)
    ensures
        (admins + added).subrange(0, admins.len() as int) == admins,
        forall|a: Seq<char>| added.contains(a) ==> #[trigger] (admins + added).contains(a),
        forall|a: Seq<char>| admins.contains(a) ==> #[trigger] (admins + added).contains(a),
{
    assert((admins + added).subrange(0, admins.len() as int) =~= admins);
    assert forall|a: Seq<char>| added.contains(a) implies #[trigger] (admins + added).contains(a) by {
        let j = choose|j: int| 0 <= j < added.len() && added[j] == a;
        assert((admins + added)[admins.len() + j] == a);
    }
    assert forall|a: Seq<char>| admins.contains(a) implies #[trigger] (admins + added).contains(a) by {
        let j = choose|j: int| 0 <= j < admins.len() && admins[j] == a;
        assert((admins + added)[j] == a);
    }
}

/// After the sender leaves it is no admin any more (so adding members is
/// refused to it), while every other admin stays one.
pub proof fn law_leave_removes_only_the_sender(admins: Seq<Seq<char>>, who: Seq<char>)
    ensures
        !without(admins, who).contains(who),
        forall|a: Seq<char>| a != who ==> (#[trigger] without(admins, who).contains(a) <==> admins.contains(a)),
{
    broadcast use vstd::seq_lib::group_filter_ensures;
    let pred = other_than(who);
    if without(admins, who).contains(who) {
        let j = choose|j: int| 0 <= j < without(admins, who).len() && without(admins, who)[j] == who;
        assert(pred(admins.filter(pred)[j]));
    }
    assert forall|a: Seq<char>| a != who implies (#[trigger] without(admins, who).contains(a) <==> admins.contains(a)) by {
        if admins.contains(a) {
            let j = choose|j: int| 0 <= j < admins.len() && admins[j] == a;
            assert(admins.filter(pred).contains(admins[j]));
        }
        if without(admins, who).contains(a) {
            admins.lemma_filter_contains_rev(pred, a);
        }
    }
}

/// Leaving twice is the same as leaving once.
pub proof fn law_leave_is_idempotent(admins: Seq<Seq<char>>, who: Seq<char>)
    ensures
        without(without(admins, who), who) == without(admins, who),
    decreases admins.len(),
{
    reveal(Seq::filter);
    if admins.len() > 0 {
        law_leave_is_idempotent(admins.drop_last(), who);
        let pred = other_than(who);
        let sub = admins.drop_last().filter(pred);
        if pred(admins.last()) {
            assert(sub.push(admins.last()).drop_last() =~= sub);
        }
    }
}

/// A donation divides into a share per admin entry and a remainder smaller
/// than the number of entries: nothing is paid out beyond what was sent.
pub proof fn law_donation_is_conserved(amount: u128, n: nat)
    requires
        n > 0,
    ensures
        share(amount, n) * n <= amount,
        amount - share(amount, n) * n < n,
{
    let a: int = amount as int;
    let m: int = n as int;
    let q: int = a / m;
    let r: int = a % m;
    assert(q * m + r == a && 0 <= r < m) by (nonlinear_arith)
        requires m > 0, q == a / m, r == a % m;
    assert(0 <= q <= a) by (nonlinear_arith)
        requires m > 0, q == a / m, a >= 0;
}

/// How often `a` stands in `s`.
pub open spec fn occurrences(s: Seq<Seq<char>>, a: Seq<char>) -> nat
    decreases s.len(),
{
    if s.len() == 0 {
        0
    } else {
        occurrences(s.drop_last(), a) + if s.last() == a { 1nat } else { 0nat }
    }
}

/// The total that `msgs` send to `addr`.
pub open spec fn received(msgs: Seq<BankMsgView>, addr: Seq<char>) -> int
    decreases msgs.len(),
{
    if msgs.len() == 0 {
        0
    } else {
        received(msgs.drop_last(), addr) + match msgs.last() {
            BankMsgView::Send { to_address, amount } =>
                if to_address == addr { coin_total(amount) } else { 0 },
        }
    }
}

/// The sum of the amounts of a list of coins.
pub open spec fn coin_total(coins: Seq<crate::types::CoinView>) -> int
    decreases coins.len(),
{
    if coins.len() == 0 { 0 } else { coin_total(coins.drop_last()) + coins.last().amount }
}

/// A donation pays each address one share for every time it stands among the
/// admins: an admin who added itself again receives two shares.
pub proof fn law_donation_follows_admin_entries(
    admins: Seq<Seq<char>>,
    denom: Seq<char>,
    amount: u128,
    addr: Seq<char>,
)
    requires
        admins.len() > 0,
    ensures
        received(donate_response(admins, denom, amount).messages, addr)
            == occurrences(admins, addr) * share(amount, admins.len()),
{
    lemma_received_prefix(admins, denom, share(amount, admins.len()), addr, admins.len() as int);
    assert(admins.subrange(0, admins.len() as int) =~= admins);
}

proof fn lemma_received_prefix(admins: Seq<Seq<char>>, denom: Seq<char>, per: u128, addr: Seq<char>, k: int)
    requires
        0 <= k <= admins.len(),
    ensures
        received(share_msgs(admins.subrange(0, k), denom, per), addr)
            == occurrences(admins.subrange(0, k), addr) * per,
    decreases k,
{
    let s = admins.subrange(0, k);
    if k > 0 {
        lemma_received_prefix(admins, denom, per, addr, k - 1);
        assert(s.drop_last() =~= admins.subrange(0, k - 1));
        assert(share_msgs(s, denom, per).drop_last() =~= share_msgs(admins.subrange(0, k - 1), denom, per));
        let c = seq![crate::types::CoinView { denom, amount: per }];
        assert(c.drop_last() =~= Seq::<crate::types::CoinView>::empty());
        assert(coin_total(c.drop_last()) == 0);
        assert(coin_total(c) == per);
        let msgs = share_msgs(s, denom, per);
        assert(msgs.last() == crate::contract::send_share(s.last(), denom, per));
        assert(received(msgs.drop_last(), addr) == occurrences(s.drop_last(), addr) * per);
        let o = occurrences(s.drop_last(), addr);
        assert((o + 1) * per == o * per + per) by (nonlinear_arith);
        if s.last() == addr {
            assert(received(msgs, addr) == received(msgs.drop_last(), addr) + per);
            assert(occurrences(s, addr) == o + 1);
            assert(received(msgs, addr) == occurrences(s, addr) * per);
        } else {
            assert(received(msgs, addr) == received(msgs.drop_last(), addr));
            assert(occurrences(s, addr) == o);
            assert(received(msgs, addr) == occurrences(s, addr) * per);
        }
    } else {
        assert(share_msgs(s, denom, per) =~= Seq::<BankMsgView>::empty());
        assert(received(share_msgs(s, denom, per), addr) == 0);
        assert(occurrences(s, addr) == 0);
    }
}

// ---------------------------------------------------------------------------
// Decimal rendering
// ---------------------------------------------------------------------------

/// Whether `c` is one of the characters '0' to '9'.
pub open spec fn is_digit(c: char) -> bool {
    48 <= (c as int) && (c as int) <= 57
}

/// The number that a sequence of decimal digits stands for, most significant
/// digit first.
pub open spec fn digits_value(s: Seq<char>) -> int
    decreases s.len(),
{
    if s.len() == 0 { 0 } else { digits_value(s.drop_last()) * 10 + ((s.last() as int) - 48) }
}

/// The rendering of a number is made of decimal digits only, reads back as
/// the number, and has no leading zero (zero is the single digit '0').
pub proof fn law_decimal_reads_back(n: nat)
    ensures
        decimal(n).len() >= 1,
        forall|i: int| 0 <= i < decimal(n).len() ==> is_digit(#[trigger] decimal(n)[i]),
        digits_value(decimal(n)) == n,
        n == 0 ==> decimal(n) == seq!['0'],
        n > 0 ==> decimal(n)[0] != '0',
    decreases n,
{
    if n < 10 {
        let s = decimal(n);
        assert(s.drop_last() =~= Seq::<char>::empty());
        assert(digits_value(s.drop_last()) == 0);
    } else {
        law_decimal_reads_back(n / 10);
        let p = decimal(n / 10);
        let s = decimal(n);
        assert(s.drop_last() =~= p);
        assert forall|i: int| 0 <= i < s.len() implies is_digit(#[trigger] s[i]) by {
            if i < p.len() {
                assert(s[i] == p[i]);
            }
        }
        assert(s[0] == p[0]);
        assert((n / 10) * 10 + n % 10 == n);
    }
}

// ---------------------------------------------------------------------------
// Payment
// ---------------------------------------------------------------------------

/// The sum of the amounts of a list of coins of the given denomination.
pub open spec fn denom_total(coins: Seq<CoinView>, denom: Seq<char>) -> int
    decreases coins.len(),
{
    if coins.len() == 0 {
        0
    } else {
        denom_total(coins.drop_last(), denom) + if coins.last().denom == denom { coins.last().amount as int } else { 0 }
    }
}

/// A payment is accepted only when exactly one coin was sent, of the asked
/// denomination and of a non-zero amount, and then the whole of it is the
/// payment: nothing sent is left aside. Sending nothing is refused with
/// `NoFunds` (as is one coin of amount zero), sending two or more coins with `MultipleDenoms`, one coin of
/// another denomination with `MissingDenom(denom)`.
pub proof fn law_payment_is_one_coin_of_the_denomination(funds: Seq<CoinView>, denom: Seq<char>)
    ensures
        funds.len() == 0 ==> must_pay_spec(funds, denom) == Err::<u128, PaymentErrorView>(PaymentErrorView::NoFunds),
        funds.len() >= 2 ==> must_pay_spec(funds, denom) == Err::<u128, PaymentErrorView>(PaymentErrorView::MultipleDenoms),
        funds.len() == 1 && funds[0].amount == 0
            ==> must_pay_spec(funds, denom) == Err::<u128, PaymentErrorView>(PaymentErrorView::NoFunds),
        funds.len() == 1 && funds[0].amount != 0 && funds[0].denom != denom
            ==> must_pay_spec(funds, denom) == Err::<u128, PaymentErrorView>(PaymentErrorView::MissingDenom(denom)),
        must_pay_spec(funds, denom) matches Ok(a) ==> {
            &&& funds.len() == 1
            &&& a > 0
            &&& forall|i: int| 0 <= i < funds.len() ==> (#[trigger] funds[i]).denom == denom
            &&& a as int == denom_total(funds, denom)
            &&& a as int == coin_total(funds)
        },
        (funds.len() == 1 && funds[0].amount != 0 && funds[0].denom == denom)
            ==> must_pay_spec(funds, denom) == Ok::<u128, PaymentErrorView>(funds[0].amount),
{
    if funds.len() == 1 {
        assert(funds.drop_last() =~= Seq::<CoinView>::empty());
        assert(denom_total(funds.drop_last(), denom) == 0);
        assert(coin_total(funds.drop_last()) == 0);
    }
}

// ---------------------------------------------------------------------------
// Responses
// ---------------------------------------------------------------------------

/// Adding members answers with exactly one `admin_added` event per address in
/// the message, in order, each with the single attribute `addr` holding that
/// address; and with the attributes `action` = "add_members" and
/// `added_count`, whose digits read back as the number of events.
pub proof fn law_add_members_announces_each_address(added: Seq<Seq<char>>)
    ensures
        add_members_response(added).messages.len() == 0,
        add_members_response(added).events.len() == added.len(),
        forall|i: int| 0 <= i < added.len() ==> {
            &&& (#[trigger] add_members_response(added).events[i]).ty == "admin_added"@
            &&& add_members_response(added).events[i].attributes.len() == 1
            &&& add_members_response(added).events[i].attributes[0].key == "addr"@
            &&& add_members_response(added).events[i].attributes[0].value == added[i]
        },
        add_members_response(added).attributes.len() == 2,
        add_members_response(added).attributes[0] == attr("action"@, "add_members"@),
        add_members_response(added).attributes[1].key == "added_count"@,
        digits_value(add_members_response(added).attributes[1].value)
            == add_members_response(added).events.len(),
{
    law_decimal_reads_back(added.len());
}

/// The sum of the amounts of the given denomination that `msgs` send.
pub open spec fn paid_total(msgs: Seq<BankMsgView>, denom: Seq<char>) -> int
    decreases msgs.len(),
{
    if msgs.len() == 0 {
        0
    } else {
        paid_total(msgs.drop_last(), denom) + match msgs.last() {
            BankMsgView::Send { amount, .. } => denom_total(amount, denom),
        }
    }
}

/// A donation of `amount` among `admins` sends, for each admin entry in order,
/// one coin of the donation denomination and of the amount divided by the
/// number of entries to that entry; all it sends is in the donation
/// denomination and adds up to no more than the donation, leaving less than
/// one share per entry. Its attributes `amount` and `per_admin` read back as
/// the donation and the share.
pub proof fn law_donation_pays_each_admin_in_the_denomination(
    admins: Seq<Seq<char>>,
    denom: Seq<char>,
    amount: u128,
)
    requires
        admins.len() > 0,
    ensures
        donate_response(admins, denom, amount).messages.len() == admins.len(),
        forall|i: int| 0 <= i < admins.len() ==> {
            &&& (#[trigger] donate_response(admins, denom, amount).messages[i]) matches BankMsgView::Send { to_address, amount: coins }
            &&& to_address == admins[i]
            &&& coins.len() == 1
            &&& coins[0].denom == denom
            &&& coins[0].amount as int * admins.len() <= amount
            &&& amount - coins[0].amount as int * admins.len() < admins.len()
        },
        paid_total(donate_response(admins, denom, amount).messages, denom) <= amount,
        amount - paid_total(donate_response(admins, denom, amount).messages, denom) < admins.len(),
        donate_response(admins, denom, amount).attributes.len() == 3,
        donate_response(admins, denom, amount).attributes[0] == attr("action"@, "donate"@),
        donate_response(admins, denom, amount).attributes[1].key == "amount"@,
        digits_value(donate_response(admins, denom, amount).attributes[1].value) == amount,
        donate_response(admins, denom, amount).attributes[2].key == "per_admin"@,
        digits_value(donate_response(admins, denom, amount).attributes[2].value) * admins.len() <= amount,
        amount - digits_value(donate_response(admins, denom, amount).attributes[2].value) * admins.len() < admins.len(),
        donate_response(admins, denom, amount).events.len() == 0,
{
    let per = share(amount, admins.len());
    law_donation_is_conserved(amount, admins.len());
    law_decimal_reads_back(amount as nat);
    law_decimal_reads_back(per as nat);
    let c = seq![CoinView { denom, amount: per }];
    assert(c.drop_last() =~= Seq::<CoinView>::empty());
    assert(denom_total(c.drop_last(), denom) == 0);
    assert(denom_total(c, denom) == per);
    lemma_paid_prefix(admins, denom, per, admins.len() as int);
    assert(admins.subrange(0, admins.len() as int) =~= admins);
    assert(per as int * admins.len() == admins.len() * per) by (nonlinear_arith);
}

proof fn lemma_paid_prefix(admins: Seq<Seq<char>>, denom: Seq<char>, per: u128, k: int)
    requires
        0 <= k <= admins.len(),
    ensures
        paid_total(share_msgs(admins.subrange(0, k), denom, per), denom) == k * per,
    decreases k,
{
    let s = admins.subrange(0, k);
    let msgs = share_msgs(s, denom, per);
    if k > 0 {
        lemma_paid_prefix(admins, denom, per, k - 1);
        assert(msgs.drop_last() =~= share_msgs(admins.subrange(0, k - 1), denom, per));
        let c = seq![CoinView { denom, amount: per }];
        assert(c.drop_last() =~= Seq::<CoinView>::empty());
        assert(denom_total(c.drop_last(), denom) == 0);
        assert(denom_total(c, denom) == per);
        assert(msgs.last() == crate::contract::send_share(s.last(), denom, per));
        assert((k - 1) * per + per == k * per) by (nonlinear_arith);
    } else {
        assert(msgs =~= Seq::<BankMsgView>::empty());
    }
}

// ---------------------------------------------------------------------------
// Leaving
// ---------------------------------------------------------------------------

/// Leaving keeps the other admins in their order: it takes nothing from an
/// empty list, and on a list with one more admin at the end it keeps that
/// admin at the end unless it is the sender.
pub proof fn law_leave_keeps_others_in_order(admins: Seq<Seq<char>>, who: Seq<char>, a: Seq<char>)
    ensures
        without(Seq::empty(), who) == Seq::<Seq<char>>::empty(),
        without(admins.push(a), who) == if a != who { without(admins, who).push(a) } else { without(admins, who) },
{
    reveal(Seq::filter);
    crate::contract::lemma_without_push(admins, who, a);
}

} // verus!

