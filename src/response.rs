use vstd::prelude::*;

use crate::coin::{Coin, CoinView, coins_view};

verus! {

/// A key and a value reported with a response.
#[derive(Debug, Clone, PartialEq, Eq)]
pub struct Attribute {
    pub key: String,
    pub value: String,
}

/// An instruction to the host's bank: send `amount` to `to_address`.
#[derive(Debug, Clone, PartialEq, Eq)]
pub struct BankSend {
    pub to_address: String,
    pub amount: Vec<Coin>,
}

/// What a successful operation hands back to the host: transfers to carry out
/// after the state is committed, and attributes to record.
#[derive(Debug, Clone, PartialEq, Eq)]
pub struct Response {
    pub messages: Vec<BankSend>,
    pub attributes: Vec<Attribute>,
}

/// The mathematical value of a `BankSend`.
pub struct BankSendView {
    pub to_address: Seq<char>,
    pub amount: Seq<CoinView>,
}

/// The mathematical value of a `Response`.
pub struct ResponseView {
    pub messages: Seq<BankSendView>,
    pub attributes: Seq<(Seq<char>, Seq<char>)>,
}

impl View for Attribute {
    type V = (Seq<char>, Seq<char>);

    open spec fn view(&self) -> (Seq<char>, Seq<char>) {
        (self.key@, self.value@)
    }
}

impl View for BankSend {
    type V = BankSendView;

    open spec fn view(&self) -> BankSendView {
        BankSendView { to_address: self.to_address@, amount: coins_view(self.amount@) }
    }
}

impl View for Response {
    type V = ResponseView;

    open spec fn view(&self) -> ResponseView {
        ResponseView {
            messages: self.messages@.map_values(|m: BankSend| m@),
            attributes: self.attributes@.map_values(|a: Attribute| a@),
        }
    }
}

impl Response {
    /// A response with no transfer and no attribute.
    pub fn new() -> (r: Response)
        ensures
            r@.messages == Seq::<BankSendView>::empty(),
            r@.attributes == Seq::<(Seq<char>, Seq<char>)>::empty(),
    {
        let r = Response { messages: Vec::new(), attributes: Vec::new() };
        assert(r@.messages =~= Seq::<BankSendView>::empty());
        assert(r@.attributes =~= Seq::<(Seq<char>, Seq<char>)>::empty());
        r
    }

    /// This response with one more attribute at the end.
    pub fn add_attribute(self, key: &str, value: String) -> (r: Response)
        ensures
            r@.messages == self@.messages,
            r@.attributes == self@.attributes.push((key@, value@)),
    {
        let ghost before = self@;
        let mut r = self;
        r.attributes.push(Attribute { key: String::from_str(key), value });
        assert(r@.attributes =~= before.attributes.push((key@, value@)));
        assert(r@.messages =~= before.messages);
        r
    }

    /// This response with one more transfer at the end.
    pub fn add_message(self, msg: BankSend) -> (r: Response)
        ensures
            r@.messages == self@.messages.push(msg@),
            r@.attributes == self@.attributes,
    {
        let ghost before = self@;
        let ghost m = msg@;
        let mut r = self;
        r.messages.push(msg);
        assert(r@.messages =~= before.messages.push(m));
        assert(r@.attributes =~= before.attributes);
        r
    }
}

} // verus!
