//! Taking a payment in one denomination, through `cw_utils::must_pay`.
use vstd::prelude::*;
use crate::error::{PaymentError, PaymentErrorView};
use crate::types::{Coin, CoinView, MessageInfo};
use cosmwasm_std::Addr;
use cw_utils::PaymentError as CwPaymentError;

verus! {

/// What `cw_utils::must_pay` gives for the funds sent and the denomination
/// asked for: the amount when exactly one coin of a non-zero amount was sent
/// and its denomination is the one asked for.
pub open spec fn must_pay_spec(funds: Seq<CoinView>, denom: Seq<char>) -> Result<u128, PaymentErrorView> {
    if funds.len() == 0 {
        Err(PaymentErrorView::NoFunds)
    } else if funds.len() == 1 {
        if funds[0].amount == 0 {
            Err(PaymentErrorView::NoFunds)
        } else if funds[0].denom != denom {
            Err(PaymentErrorView::MissingDenom(denom))
        } else {
            Ok(funds[0].amount)
        }
    } else {
        Err(PaymentErrorView::MultipleDenoms)
    }
}

/// Calls `cw_utils::must_pay` on a `cosmwasm_std::MessageInfo` built from
/// `info`. Its source (cw-utils 1.0.3) asks `one_coin` for the single coin
/// sent (no coin, or a zero amount: `NoFunds`; two or more: `MultipleDenoms`)
/// and then compares its denomination with `denom` (`MissingDenom(denom)`
/// when they differ); the contract claims exactly that.
#[verifier::external_body]
pub(crate) fn must_pay(info: &MessageInfo, denom: &String) -> (res: Result<u128, PaymentError>)
    ensures
        match res {
            Ok(a) => must_pay_spec(info@.funds, denom@) == Ok::<u128, PaymentErrorView>(a),
            Err(e) => must_pay_spec(info@.funds, denom@) == Err::<u128, PaymentErrorView>(e@),
        },
{
    let funds = info.funds.iter().map(|c: &Coin| cosmwasm_std::coin(c.amount, &c.denom)).collect();
    let sender = Addr::unchecked(&info.sender);
    match cw_utils::must_pay(&cosmwasm_std::MessageInfo { sender, funds }, denom) {
        Ok(amount) => Ok(amount.u128()),
        Err(CwPaymentError::MissingDenom(d)) => Err(PaymentError::MissingDenom(d)),
        Err(CwPaymentError::ExtraDenom(d)) => Err(PaymentError::ExtraDenom(d)),
        Err(CwPaymentError::MultipleDenoms {}) => Err(PaymentError::MultipleDenoms {}),
        Err(CwPaymentError::NoFunds {}) => Err(PaymentError::NoFunds {}),
        Err(CwPaymentError::NonPayable {}) => Err(PaymentError::NonPayable {}),
    }
}

} // verus!
