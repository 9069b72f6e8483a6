//! The contract's stored state: the admins, in the order in which they were
//! added, and the denomination that donations are taken in.
use vstd::prelude::*;

verus! {

/// The views of a sequence of strings.
pub open spec fn strings(v: Seq<String>) -> Seq<Seq<char>> {
    v.map_values(|s: String| s@)
}

#[derive(Clone, Debug, PartialEq, Eq)]
pub struct State {
    /// The admins; an address may stand here more than once.
    pub admins: Vec<String>,
    /// The only denomination that donations are accepted in.
    pub donation_denom: String,
}

pub struct StateView {
    pub admins: Seq<Seq<char>>,
    pub donation_denom: Seq<char>,
}

impl View for State {
    type V = StateView;

    open spec fn view(&self) -> StateView {
        StateView { admins: strings(self.admins@), donation_denom: self.donation_denom@ }
    }
}

} // verus!
