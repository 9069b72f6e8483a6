//! The messages that the contract is instantiated, executed and queried with,
//! and the answers to queries.
use vstd::prelude::*;

verus! {

/// The queries that the contract answers.
#[derive(Clone, Debug, PartialEq, Eq)]
pub enum QueryMsg {
    /// Answered with a `GreetResp`.
    Greet {},
    /// Answered with an `AdminsListResp`.
    AdminsList {},
}

#[derive(Clone, Debug, PartialEq, Eq)]
pub struct GreetResp {
    pub message: String,
}

/// The message that sets the contract up.
#[derive(Clone, Debug, PartialEq, Eq)]
pub struct InstantiateMsg {
    pub admins: Vec<String>,
    pub donation_denom: String,
}

#[derive(Clone, Debug, PartialEq, Eq)]
pub struct AdminsListResp {
    pub admins: Vec<String>,
}

/// The messages that change the contract's state or move funds.
#[derive(Clone, Debug, PartialEq, Eq)]
pub enum ExecuteMsg {
    /// An admin adds further admins.
    AddMembers { admins: Vec<String> },
    /// The sender stops being an admin.
    Leave {},
    /// The funds sent are shared out equally among the admins.
    Donate {},
}

/// The answer to a query, before it is encoded.
#[derive(Clone, Debug, PartialEq, Eq)]
pub enum QueryResp {
    Greet(GreetResp),
    AdminsList(AdminsListResp),
}

} // verus!
