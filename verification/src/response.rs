use crate::voting_power::msg::Instantiation;
use crate::voting_power::msg::InstantiationView;
use vstd::prelude::*;

verus! {

/// An instruction that a handler hands back for the chain to carry out.
#[derive(Clone, Debug, PartialEq, Eq)]
pub enum Message {
    /// Ask the token contract at `token_address` to move `amount` of the
    /// contract's tokens to `recipient`.
    Cw20Transfer { token_address: String, recipient: String, amount: u128 },
    /// Send `amount` of the native coin `denom` to `to_address`.
    BankSend { to_address: String, denom: String, amount: u128 },
    /// Set up another contract and hear back about it.
    Instantiate(Instantiation),
}

/// The value of an attribute: a text, an amount of tokens, a number such as a
/// block height, or a list of numbers.
#[derive(Clone, Debug, PartialEq, Eq)]
pub enum AttributeValue {
    Text(String),
    Amount(u128),
    Number(u64),
    Ids(Vec<u64>),
}

/// A key and a value that a handler reports with its success.
#[derive(Clone, Debug, PartialEq, Eq)]
pub struct Attribute {
    pub key: String,
    pub value: AttributeValue,
}

/// What a handler hands back on success: instructions and attributes, each in
/// the order in which they were added.
#[derive(Clone, Debug, PartialEq, Eq)]
pub struct Response {
    pub messages: Vec<Message>,
    pub attributes: Vec<Attribute>,
}

/// A `Message` with its strings as sequences of characters.
pub enum MessageView {
    Cw20Transfer { token_address: Seq<char>, recipient: Seq<char>, amount: u128 },
    BankSend { to_address: Seq<char>, denom: Seq<char>, amount: u128 },
    Instantiate(InstantiationView),
}

/// An `AttributeValue` with its text as a sequence of characters.
pub enum ValueView {
    Text(Seq<char>),
    Amount(u128),
    Number(u64),
    Ids(Seq<u64>),
}

/// An `Attribute` with its strings as sequences of characters.
pub struct AttributeView {
    pub key: Seq<char>,
    pub value: ValueView,
}

/// A `Response` with its strings as sequences of characters.
pub struct ResponseView {
    pub messages: Seq<MessageView>,
    pub attributes: Seq<AttributeView>,
}

impl View for Message {
    type V = MessageView;

    open spec fn view(&self) -> MessageView {
        match self {
            Message::Cw20Transfer { token_address, recipient, amount } => MessageView::Cw20Transfer {
                token_address: token_address@,
                recipient: recipient@,
                amount: *amount,
            },
            Message::BankSend { to_address, denom, amount } => MessageView::BankSend {
                to_address: to_address@,
                denom: denom@,
                amount: *amount,
            },
            Message::Instantiate(instantiation) => MessageView::Instantiate(instantiation@),
        }
    }
}

impl View for AttributeValue {
    type V = ValueView;

    open spec fn view(&self) -> ValueView {
        match self {
            AttributeValue::Text(text) => ValueView::Text(text@),
            AttributeValue::Amount(amount) => ValueView::Amount(*amount),
            AttributeValue::Number(number) => ValueView::Number(*number),
            AttributeValue::Ids(ids) => ValueView::Ids(ids@),
        }
    }
}

impl View for Attribute {
    type V = AttributeView;

    open spec fn view(&self) -> AttributeView {
        AttributeView { key: self.key@, value: self.value@ }
    }
}

impl View for Response {
    type V = ResponseView;

    open spec fn view(&self) -> ResponseView {
        ResponseView {
            messages: self.messages@.map_values(|message: Message| message@),
            attributes: self.attributes@.map_values(|attribute: Attribute| attribute@),
        }
    }
}

impl ResponseView {
    /// The response without instructions or attributes.
    pub open spec fn empty() -> ResponseView {
        ResponseView { messages: Seq::empty(), attributes: Seq::empty() }
    }

    /// This response with one more instruction at the end.
    pub open spec fn with_message(self, message: MessageView) -> ResponseView {
        ResponseView { messages: self.messages.push(message), ..self }
    }

    /// This response with one more attribute at the end.
    pub open spec fn with_attribute(self, key: Seq<char>, value: ValueView) -> ResponseView {
        ResponseView { attributes: self.attributes.push(AttributeView { key, value }), ..self }
    }
}

impl Response {
    /// A response without instructions or attributes.
    pub fn new() -> (response: Response)
        ensures
            response@ == ResponseView::empty(),
    {
        let response = Response { messages: Vec::new(), attributes: Vec::new() };
        assert(response@.messages =~= Seq::empty());
        assert(response@.attributes =~= Seq::empty());
        response
    }

    /// Adds an instruction at the end.
    pub fn add_message(self, message: Message) -> (response: Response)
        ensures
            response@ == self@.with_message(message@),
    {
        let mut response = self;
        response.messages.push(message);
        assert(response@.messages =~= self@.messages.push(message@));
        response
    }

    /// Adds an attribute at the end.
    pub fn add_attribute(self, key: &str, value: AttributeValue) -> (response: Response)
        ensures
            response@ == self@.with_attribute(key@, value@),
    {
        let mut response = self;
        let attribute = Attribute { key: String::from_str(key), value };
        response.attributes.push(attribute);
        assert(response@.attributes =~= self@.attributes.push(
            AttributeView { key: key@, value: value@ },
        ));
        response
    }
}

} // verus!
