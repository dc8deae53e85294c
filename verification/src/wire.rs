//! Values as they cross the boundary between host and guest.

use vstd::prelude::*;

verus! {

/// A value on the wire, as the host sees it.
///
/// Only the shapes that the exported operations use are told apart; anything
/// else that a guest may hand back is `Unsupported`.
#[derive(Debug, PartialEq, Eq)]
pub enum WireValue {
    Flag(bool),
    Number(u32),
    Text(String),
    List(Vec<WireValue>),
    Variant(String, Option<Box<WireValue>>),
    Success(Option<Box<WireValue>>),
    Failure(Option<Box<WireValue>>),
    Unsupported,
}

/// The mathematical model of a [`WireValue`].
pub enum Wire {
    Flag(bool),
    Number(u32),
    Text(Seq<char>),
    List(Seq<Wire>),
    Variant(Seq<char>, Option<Box<Wire>>),
    Success(Option<Box<Wire>>),
    Failure(Option<Box<Wire>>),
    Unsupported,
}

pub open spec fn payload_model(payload: Option<Box<WireValue>>) -> Option<Box<Wire>>
    decreases payload,
{
    match payload {
        Some(inner) => Some(Box::new(wire_model(*inner))),
        None => None,
    }
}

pub open spec fn wire_model(value: WireValue) -> Wire
    decreases value,
{
    match value {
        WireValue::Flag(b) => Wire::Flag(b),
        WireValue::Number(n) => Wire::Number(n),
        WireValue::Text(s) => Wire::Text(s@),
        WireValue::List(items) => Wire::List(
            Seq::new(
                items@.len(),
                |i: int|
                    if 0 <= i < items@.len() {
                        wire_model(items@[i])
                    } else {
                        Wire::Unsupported
                    },
            ),
        ),
        WireValue::Variant(case, payload) => Wire::Variant(case@, payload_model(payload)),
        WireValue::Success(payload) => Wire::Success(payload_model(payload)),
        WireValue::Failure(payload) => Wire::Failure(payload_model(payload)),
        WireValue::Unsupported => Wire::Unsupported,
    }
}

/// Whether a payload, where there is one, can be sent.
pub open spec fn payload_sendable(payload: Option<Box<Wire>>) -> bool
    decreases payload,
{
    match payload {
        Some(inner) => sendable(*inner),
        None => true,
    }
}

/// Whether the value can be sent to a guest: nothing within it is
/// `Unsupported`, which stands for what the host could not read.
pub open spec fn sendable(value: Wire) -> bool
    decreases value,
{
    match value {
        Wire::Unsupported => false,
        Wire::List(items) => forall|i: int|
            0 <= i < items.len() ==> sendable(#[trigger] items[i]),
        Wire::Variant(_, payload) => payload_sendable(payload),
        Wire::Success(payload) => payload_sendable(payload),
        Wire::Failure(payload) => payload_sendable(payload),
        _ => true,
    }
}

impl DeepView for WireValue {
    type V = Wire;

    open spec fn deep_view(&self) -> Wire {
        wire_model(*self)
    }
}

/// Which of the two kinds of attribute text a value is.
#[derive(Clone, Copy, Debug, PartialEq, Eq, Structural)]
pub enum AttributeTag {
    Plain,
    Html,
}

/// The text of an attribute, marked as plain text or as markup. Two values
/// with the same text and different marks are different values.
#[derive(Clone, Debug, PartialEq, Eq)]
pub enum AttributeValue {
    Plain(String),
    Html(String),
}

/// The mathematical model of an [`AttributeValue`].
pub struct AttributeModel {
    pub tag: AttributeTag,
    pub payload: Seq<char>,
}

impl DeepView for AttributeValue {
    type V = AttributeModel;

    open spec fn deep_view(&self) -> AttributeModel {
        match self {
            AttributeValue::Plain(text) => AttributeModel { tag: AttributeTag::Plain, payload: text@ },
            AttributeValue::Html(text) => AttributeModel { tag: AttributeTag::Html, payload: text@ },
        }
    }
}

/// The name under which a tag travels.
pub open spec fn tag_case(tag: AttributeTag) -> Seq<char> {
    match tag {
        AttributeTag::Plain => "plain"@,
        AttributeTag::Html => "html"@,
    }
}

/// An attribute value on the wire: its tag as the case of a variant, its text
/// as the payload of that case.
pub open spec fn attribute_wire(value: AttributeModel) -> Wire {
    Wire::Variant(tag_case(value.tag), Some(Box::new(Wire::Text(value.payload))))
}

impl AttributeValue {
    /// Which kind of text this is.
    pub fn tag(&self) -> (tag: AttributeTag)
        ensures
            tag == self.deep_view().tag,
    {
        match self {
            AttributeValue::Plain(_) => AttributeTag::Plain,
            AttributeValue::Html(_) => AttributeTag::Html,
        }
    }

    /// The text, without its mark.
    pub fn payload(&self) -> (text: &str)
        ensures
            text@ == self.deep_view().payload,
    {
        match self {
            AttributeValue::Plain(text) => text.as_str(),
            AttributeValue::Html(text) => text.as_str(),
        }
    }

    /// Puts the value into its wire form.
    pub fn encode(&self) -> (wire: WireValue)
        ensures
            wire.deep_view() == attribute_wire(self.deep_view()),
    {
        match self {
            AttributeValue::Plain(text) => WireValue::variant("plain", WireValue::text(text.as_str())),
            AttributeValue::Html(text) => WireValue::variant("html", WireValue::text(text.as_str())),
        }
    }
}

impl WireValue {
    /// A truth value on the wire.
    pub fn flag(value: bool) -> (wire: WireValue)
        ensures
            wire.deep_view() == Wire::Flag(value),
    {
        WireValue::Flag(value)
    }

    /// A handle or another number on the wire.
    pub fn number(value: u32) -> (wire: WireValue)
        ensures
            wire.deep_view() == Wire::Number(value),
    {
        WireValue::Number(value)
    }

    /// A text on the wire.
    pub fn text(value: &str) -> (wire: WireValue)
        ensures
            wire.deep_view() == Wire::Text(value@),
    {
        WireValue::Text(value.to_owned())
    }

    /// One case of a variant on the wire, with its payload.
    pub fn variant(case: &str, payload: WireValue) -> (wire: WireValue)
        ensures
            wire.deep_view() == Wire::Variant(case@, Some(Box::new(payload.deep_view()))),
    {
        let wire = WireValue::Variant(case.to_owned(), Some(Box::new(payload)));
        assert(payload_model(wire->Variant_1) == Some(Box::new(wire_model(payload))));
        wire
    }
}

/// The wire form of an attribute value can be sent.
pub proof fn attribute_wire_is_sendable(a: AttributeModel)
    ensures
        sendable(attribute_wire(a)),
{
    let text = Wire::Text(a.payload);
    assert(payload_sendable(Some(Box::new(text))));
}

/// The wire form keeps the tag and the text apart: two attribute values with
/// the same wire form have the same tag and the same text. In particular a
/// plain text and a markup text never share a wire form, whatever they hold.
pub proof fn attribute_wire_is_injective(a: AttributeModel, b: AttributeModel)
    requires
        attribute_wire(a) == attribute_wire(b),
    ensures
        a == b,
{
    reveal_strlit("plain");
    reveal_strlit("html");
    assert(tag_case(a.tag) == tag_case(b.tag));
    assert(tag_case(AttributeTag::Plain).len() != tag_case(AttributeTag::Html).len());
}

} // verus!
