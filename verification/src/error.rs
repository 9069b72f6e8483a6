//! Errors of the contract.
use vstd::prelude::*;

verus! {

/// `cosmwasm_std::StdError`, carried through unchanged: the library never
/// looks inside one, it only hands on the errors that the host's address
/// validation produced.
#[verifier::external_type_specification]
#[verifier::external_body]
pub struct ExStdError(cosmwasm_std::StdError);

/// Why a payment was refused; the same variants as `cw_utils::PaymentError`.
#[derive(Clone, Debug, PartialEq, Eq)]
pub enum PaymentError {
    MissingDenom(String),
    ExtraDenom(String),
    MultipleDenoms {},
    NoFunds {},
    NonPayable {},
}

pub enum PaymentErrorView {
    MissingDenom(Seq<char>),
    ExtraDenom(Seq<char>),
    MultipleDenoms,
    NoFunds,
    NonPayable,
}

impl View for PaymentError {
    type V = PaymentErrorView;

    open spec fn view(&self) -> PaymentErrorView {
        match self {
            PaymentError::MissingDenom(d) => PaymentErrorView::MissingDenom(d@),
            PaymentError::ExtraDenom(d) => PaymentErrorView::ExtraDenom(d@),
            PaymentError::MultipleDenoms {} => PaymentErrorView::MultipleDenoms,
            PaymentError::NoFunds {} => PaymentErrorView::NoFunds,
            PaymentError::NonPayable {} => PaymentErrorView::NonPayable,
        }
    }
}

/// The errors that executing a message can end in.
#[derive(Debug, PartialEq)]
pub enum ContractError {
    /// An error of the host, such as an address that failed validation.
    StdError(cosmwasm_std::StdError),
    /// The sender is not one of the admins.
    Unauthorized { sender: String },
    /// The funds sent with the message were not an acceptable payment.
    Payment(PaymentError),
}

} // verus!
