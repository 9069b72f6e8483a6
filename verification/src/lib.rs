//! The logic of an admin-group contract: a list of admins that may add
//! further admins or leave, and donations that are shared out equally
//! among the admins.
use vstd::prelude::*;

pub mod decimal;
pub mod types;
pub mod error;
pub mod payment;
pub mod state;
pub mod msg;
pub mod contract;
pub mod laws;

verus! {

} // verus!
