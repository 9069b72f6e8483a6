//! Plain values for what the contract reads from a message's context and
//! what it hands back to the chain: coins, the sender with the funds sent,
//! attributes, events, bank messages and the response that carries them.
use vstd::prelude::*;

verus! {

/// An amount of one denomination.
#[derive(Clone, Debug, PartialEq, Eq)]
pub struct Coin {
    pub denom: String,
    pub amount: u128,
}

pub struct CoinView {
    pub denom: Seq<char>,
    pub amount: u128,
}

impl View for Coin {
    type V = CoinView;

    open spec fn view(&self) -> CoinView {
        CoinView { denom: self.denom@, amount: self.amount }
    }
}

/// Who sent the message, and the funds that came with it.
#[derive(Clone, Debug, PartialEq, Eq)]
pub struct MessageInfo {
    pub sender: String,
    pub funds: Vec<Coin>,
}

pub struct MessageInfoView {
    pub sender: Seq<char>,
    pub funds: Seq<CoinView>,
}

impl View for MessageInfo {
    type V = MessageInfoView;

    open spec fn view(&self) -> MessageInfoView {
        MessageInfoView { sender: self.sender@, funds: self.funds@.map_values(|c: Coin| c@) }
    }
}

/// A key/value pair of an event.
#[derive(Clone, Debug, PartialEq, Eq)]
pub struct Attribute {
    pub key: String,
    pub value: String,
}

pub struct AttributeView {
    pub key: Seq<char>,
    pub value: Seq<char>,
}

impl View for Attribute {
    type V = AttributeView;

    open spec fn view(&self) -> AttributeView {
        AttributeView { key: self.key@, value: self.value@ }
    }
}

/// A custom event: its type and its attributes.
#[derive(Clone, Debug, PartialEq, Eq)]
pub struct Event {
    pub ty: String,
    pub attributes: Vec<Attribute>,
}

pub struct EventView {
    pub ty: Seq<char>,
    pub attributes: Seq<AttributeView>,
}

impl View for Event {
    type V = EventView;

    open spec fn view(&self) -> EventView {
        EventView { ty: self.ty@, attributes: self.attributes@.map_values(|a: Attribute| a@) }
    }
}

/// A message to the bank module.
#[derive(Clone, Debug, PartialEq, Eq)]
pub enum BankMsg {
    /// Sends `amount` from the contract to `to_address`.
    Send { to_address: String, amount: Vec<Coin> },
}

pub enum BankMsgView {
    Send { to_address: Seq<char>, amount: Seq<CoinView> },
}

impl View for BankMsg {
    type V = BankMsgView;

    open spec fn view(&self) -> BankMsgView {
        match self {
            BankMsg::Send { to_address, amount } => BankMsgView::Send {
                to_address: to_address@,
                amount: amount@.map_values(|c: Coin| c@),
            },
        }
    }
}

/// What a successful call hands back: messages to dispatch, attributes of
/// the contract's own event, and custom events.
#[derive(Clone, Debug, PartialEq, Eq)]
pub struct Response {
    pub messages: Vec<BankMsg>,
    pub attributes: Vec<Attribute>,
    pub events: Vec<Event>,
}

pub struct ResponseView {
    pub messages: Seq<BankMsgView>,
    pub attributes: Seq<AttributeView>,
    pub events: Seq<EventView>,
}

impl View for Response {
    type V = ResponseView;

    open spec fn view(&self) -> ResponseView {
        ResponseView {
            messages: self.messages@.map_values(|m: BankMsg| m@),
            attributes: self.attributes@.map_values(|a: Attribute| a@),
            events: self.events@.map_values(|e: Event| e@),
        }
    }
}

/// The attribute view with the given key and value.
pub open spec fn attr(key: Seq<char>, value: Seq<char>) -> AttributeView {
    AttributeView { key, value }
}

/// One coin of `amount` in `denom`, as a list (what `cosmwasm_std::coins`
/// builds).
pub fn coins(amount: u128, denom: &String) -> (v: Vec<Coin>)
    ensures
        v@.map_values(|c: Coin| c@) == seq![CoinView { denom: denom@, amount }],
{
    let mut v: Vec<Coin> = Vec::new();
    v.push(Coin { denom: denom.clone(), amount });
    assert(v@.map_values(|c: Coin| c@) =~= seq![CoinView { denom: denom@, amount }]);
    v
}

/// The response with no messages, attributes or events.
pub open spec fn empty_response() -> ResponseView {
    ResponseView { messages: Seq::empty(), attributes: Seq::empty(), events: Seq::empty() }
}

impl Response {
    /// A response with no messages, attributes or events.
    pub fn new() -> (r: Response)
        ensures
            r@ == empty_response(),
    {
        let r = Response { messages: Vec::new(), attributes: Vec::new(), events: Vec::new() };
        assert(r@.messages =~= Seq::empty());
        assert(r@.attributes =~= Seq::empty());
        assert(r@.events =~= Seq::empty());
        r
    }

    /// Appends one attribute with the given key and value.
    pub fn add_attribute(self, key: &str, value: String) -> (r: Response)
        ensures
            r@.messages == self@.messages,
            r@.events == self@.events,
            r@.attributes == self@.attributes.push(attr(key@, value@)),
    {
        let mut r = self;
        let ghost old_attrs = r.attributes@;
        r.attributes.push(Attribute { key: key.to_owned(), value });
        assert(r.attributes@.map_values(|a: Attribute| a@) =~= old_attrs.map_values(|a: Attribute| a@).push(attr(key@, value@)));
        r
    }

    /// Appends `events`, in order, to the custom events.
    pub fn add_events(self, events: Vec<Event>) -> (r: Response)
        ensures
            r@.messages == self@.messages,
            r@.attributes == self@.attributes,
            r@.events == self@.events + events@.map_values(|e: Event| e@),
    {
        let mut r = self;
        let ghost old_events = r.events@;
        let mut events = events;
        let ghost added = events@;
        r.events.append(&mut events);
        assert(r.events@.map_values(|e: Event| e@) =~= old_events.map_values(|e: Event| e@) + added.map_values(|e: Event| e@));
        r
    }

    /// Appends one message to dispatch.
    pub fn add_message(self, msg: BankMsg) -> (r: Response)
        ensures
            r@.messages == self@.messages.push(msg@),
            r@.attributes == self@.attributes,
            r@.events == self@.events,
    {
        let mut r = self;
        let ghost old_messages = r.messages@;
        r.messages.push(msg);
        assert(r.messages@.map_values(|m: BankMsg| m@) =~= old_messages.map_values(|m: BankMsg| m@).push(msg@));
        r
    }
}

impl Event {
    /// An event of type `ty` with no attributes.
    pub fn new(ty: &str) -> (e: Event)
        ensures
            e@.ty == ty@,
            e@.attributes == Seq::<AttributeView>::empty(),
    {
        let e = Event { ty: ty.to_owned(), attributes: Vec::new() };
        assert(e@.attributes =~= Seq::<AttributeView>::empty());
        e
    }

    /// Appends one attribute with the given key and value.
    pub fn add_attribute(self, key: &str, value: String) -> (e: Event)
        ensures
            e@.ty == self@.ty,
            e@.attributes == self@.attributes.push(attr(key@, value@)),
    {
        let mut e = self;
        let ghost old_attrs = e.attributes@;
        e.attributes.push(Attribute { key: key.to_owned(), value });
        assert(e.attributes@.map_values(|a: Attribute| a@) =~= old_attrs.map_values(|a: Attribute| a@).push(attr(key@, value@)));
        e
    }
}

} // verus!
