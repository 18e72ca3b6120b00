//! The outcome of a successful mutating call: structured attributes for
//! observability, and outbound effects such as a value transfer.

use vstd::prelude::*;
use vstd::string::StringExecFns;
use crate::state::{Coin, CoinView, coins_view};

verus! {

/// The mathematical value of an [`Attribute`].
#[verifier::ext_equal]
pub struct AttributeView {
    pub key: Seq<char>,
    pub value: Seq<char>,
}

/// One key/value metadata pair emitted with a successful transition.
#[derive(Debug, PartialEq)]
pub struct Attribute {
    pub key: String,
    pub value: String,
}

impl View for Attribute {
    type V = AttributeView;

    open spec fn view(&self) -> AttributeView {
        AttributeView { key: self.key@, value: self.value@ }
    }
}

/// The mathematical value of a [`BankMsg`].
#[verifier::ext_equal]
pub enum BankMsgView {
    Send { to_address: Seq<char>, amount: Seq<CoinView> },
}

/// An outbound value-transfer instruction for the host environment to carry
/// out: move `amount` to `to_address`.
#[derive(Debug, PartialEq)]
pub enum BankMsg {
    Send { to_address: String, amount: Vec<Coin> },
}

impl View for BankMsg {
    type V = BankMsgView;

    open spec fn view(&self) -> BankMsgView {
        match self {
            BankMsg::Send { to_address, amount } => (BankMsgView::Send {
                to_address: to_address@,
                amount: coins_view(amount@),
            }),
        }
    }
}

/// The mathematical value of a [`Response`].
#[verifier::ext_equal]
pub struct ResponseView {
    pub attributes: Seq<AttributeView>,
    pub messages: Seq<BankMsgView>,
}

/// The structured outcome of a successful mutating call.
#[derive(Debug, PartialEq)]
pub struct Response {
    pub attributes: Vec<Attribute>,
    pub messages: Vec<BankMsg>,
}

impl View for Response {
    type V = ResponseView;

    open spec fn view(&self) -> ResponseView {
        ResponseView {
            attributes: self.attributes@.map_values(|a: Attribute| a@),
            messages: self.messages@.map_values(|m: BankMsg| m@),
        }
    }
}

impl Response {
    /// An outcome with no attributes and no effects.
    pub fn new() -> (r: Response)
        ensures
            r@.attributes == Seq::<AttributeView>::empty(),
            r@.messages == Seq::<BankMsgView>::empty(),
    {
        let r = Response { attributes: Vec::new(), messages: Vec::new() };
        assert(r@.attributes =~= Seq::<AttributeView>::empty());
        assert(r@.messages =~= Seq::<BankMsgView>::empty());
        r
    }

    /// Appends one metadata pair.
    pub fn add_attribute(self, key: &str, value: String) -> (r: Response)
        ensures
            r@.attributes == self@.attributes.push(AttributeView { key: key@, value: value@ }),
            r@.messages == self@.messages,
    {
        let mut r = self;
        r.attributes.push(Attribute { key: String::from_str(key), value });
        assert(r@.attributes =~= self@.attributes.push(
            AttributeView { key: key@, value: value@ },
        ));
        assert(r@.messages =~= self@.messages);
        r
    }

    /// Appends one outbound effect.
    pub fn add_message(self, msg: BankMsg) -> (r: Response)
        ensures
            r@.messages == self@.messages.push(msg@),
            r@.attributes == self@.attributes,
    {
        let ghost m = msg@;
        let mut r = self;
        r.messages.push(msg);
        assert(r@.messages =~= self@.messages.push(m));
        assert(r@.attributes =~= self@.attributes);
        r
    }
}

} // verus!
