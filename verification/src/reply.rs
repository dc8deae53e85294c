//! What a call into the guest brings back, and how the host reads it.

use crate::error::{outcome, ErrorKind, ErrorModel, GraphvizmError};
use crate::request::Shape;
use crate::runtime::{describe, error_text};
use crate::wire::{payload_model, wire_model, Wire, WireValue};
use vstd::prelude::*;

verus! {

/// What came back from one call into the guest.
#[derive(Debug, PartialEq, Eq)]
pub enum GuestReply {
    /// The sandbox faulted; the text says how.
    Fault(String),
    /// The call returned without a value.
    Nothing,
    /// The call returned this value.
    Value(WireValue),
}

/// The mathematical model of a [`GuestReply`].
pub enum ReplyModel {
    Fault(Seq<char>),
    Nothing,
    Value(Wire),
}

impl DeepView for GuestReply {
    type V = ReplyModel;

    open spec fn deep_view(&self) -> ReplyModel {
        match self {
            GuestReply::Fault(text) => ReplyModel::Fault(text@),
            GuestReply::Nothing => ReplyModel::Nothing,
            GuestReply::Value(value) => ReplyModel::Value(value.deep_view()),
        }
    }
}

/// The model of what a call brought back: a fault with the runtime's text
/// where the runtime reports an error, else the value that the call
/// returned, or nothing where it returned none.
pub open spec fn reply_of(called: Result<(), wasmtime::Error>, value: Option<Wire>) -> ReplyModel {
    match called {
        Err(e) => ReplyModel::Fault(error_text(e)),
        Ok(_) => match value {
            Some(wire) => ReplyModel::Value(wire),
            None => ReplyModel::Nothing,
        },
    }
}

/// The model of a value that a call may have returned.
pub open spec fn value_model(value: Option<WireValue>) -> Option<Wire> {
    match value {
        Some(wire) => Some(wire.deep_view()),
        None => None,
    }
}

/// The reply for what the runtime says of a call and the value that the call
/// returned, if it returned one.
pub fn reply_from(called: Result<(), wasmtime::Error>, value: Option<WireValue>) -> (reply:
    GuestReply)
    ensures
        reply.deep_view() == reply_of(called, value_model(value)),
{
    match called {
        Err(e) => GuestReply::Fault(describe(&e)),
        Ok(_) => match value {
            Some(wire) => GuestReply::Value(wire),
            None => GuestReply::Nothing,
        },
    }
}

/// The value that an operation answered with.
#[derive(Clone, Debug, PartialEq, Eq)]
pub enum Answer {
    Unit,
    Number(u32),
    Text(String),
    TextList(Vec<String>),
}

/// The mathematical model of an [`Answer`].
pub enum AnswerModel {
    Unit,
    Number(u32),
    Text(Seq<char>),
    TextList(Seq<Seq<char>>),
}

impl DeepView for Answer {
    type V = AnswerModel;

    open spec fn deep_view(&self) -> AnswerModel {
        match self {
            Answer::Unit => AnswerModel::Unit,
            Answer::Number(n) => AnswerModel::Number(*n),
            Answer::Text(text) => AnswerModel::Text(text@),
            Answer::TextList(texts) => AnswerModel::TextList(texts.deep_view()),
        }
    }
}

/// The failure that stands for a reply which the operation's interface does
/// not allow. Such a guest cannot be relied on, so it counts as a fault.
pub open spec fn malformed() -> ErrorModel {
    ErrorModel { kind: ErrorKind::Trap, detail: "malformed reply"@ }
}

/// Every item is a text.
pub open spec fn all_texts(items: Seq<Wire>) -> bool {
    forall|i: int| 0 <= i < items.len() ==> #[trigger] items[i] is Text
}

/// The texts that the items hold, in their order.
pub open spec fn texts_of(items: Seq<Wire>) -> Seq<Seq<char>> {
    Seq::new(items.len(), |i: int| items[i]->Text_0)
}

/// The answer that a reply without a value stands for.
pub open spec fn read_nothing(shape: Shape) -> Result<AnswerModel, ErrorModel> {
    if shape == Shape::Unit {
        Ok(AnswerModel::Unit)
    } else {
        Err(malformed())
    }
}

/// The answer that a value stands for where it is not wrapped in an outcome.
pub open spec fn read_plain(shape: Shape, value: Wire) -> Result<AnswerModel, ErrorModel> {
    match value {
        Wire::Number(n) => if shape == Shape::Number {
            Ok(AnswerModel::Number(n))
        } else {
            Err(malformed())
        },
        Wire::Text(text) => if shape == Shape::Text || (shape == Shape::FilledText && text.len()
            > 0) {
            Ok(AnswerModel::Text(text))
        } else {
            Err(malformed())
        },
        Wire::List(items) => if shape == Shape::TextList && all_texts(items) {
            Ok(AnswerModel::TextList(texts_of(items)))
        } else {
            Err(malformed())
        },
        _ => Err(malformed()),
    }
}

/// The failure that a failed outcome stands for.
pub open spec fn read_failure(payload: Option<Box<Wire>>) -> ErrorModel {
    match payload {
        None => ErrorModel { kind: ErrorKind::Domain, detail: Seq::empty() },
        Some(inner) => match *inner {
            Wire::Text(text) => ErrorModel { kind: ErrorKind::Domain, detail: text },
            _ => malformed(),
        },
    }
}

/// What a reply means for an operation that answers with the given shape.
///
/// A fault of the sandbox is a `Trap` with the sandbox's own text. A failed
/// outcome is a `Domain` failure with the guest's diagnostic (empty where the
/// guest gave none). A value may come bare or inside a successful outcome.
/// Everything else is a malformed reply.
pub open spec fn decoded(shape: Shape, reply: ReplyModel) -> Result<AnswerModel, ErrorModel> {
    match reply {
        ReplyModel::Fault(text) => Err(ErrorModel { kind: ErrorKind::Trap, detail: text }),
        ReplyModel::Nothing => read_nothing(shape),
        ReplyModel::Value(Wire::Failure(payload)) => Err(read_failure(payload)),
        ReplyModel::Value(Wire::Success(None)) => read_nothing(shape),
        ReplyModel::Value(Wire::Success(Some(inner))) => read_plain(shape, *inner),
        ReplyModel::Value(value) => read_plain(shape, value),
    }
}

/// An answer is of the shape that was asked for.
pub open spec fn fits(shape: Shape, answer: AnswerModel) -> bool {
    match answer {
        AnswerModel::Unit => shape == Shape::Unit,
        AnswerModel::Number(_) => shape == Shape::Number,
        AnswerModel::Text(text) => shape == Shape::Text || (shape == Shape::FilledText
            && text.len() > 0),
        AnswerModel::TextList(_) => shape == Shape::TextList,
    }
}

/// Whatever the guest sends, an answer that the host accepts has the shape
/// that the operation promises, and a failure is either a fault of the
/// sandbox or a refusal by the guest.
pub proof fn decoded_is_well_shaped(shape: Shape, reply: ReplyModel)
    ensures
        match decoded(shape, reply) {
            Ok(answer) => fits(shape, answer),
            Err(e) => e.kind == ErrorKind::Trap || e.kind == ErrorKind::Domain,
        },
{
}

fn malformed_reply() -> (e: GraphvizmError)
    ensures
        e.deep_view() == malformed(),
{
    GraphvizmError::Trap("malformed reply".to_owned())
}

fn decode_nothing(shape: Shape) -> (r: Result<Answer, GraphvizmError>)
    ensures
        outcome(r) == read_nothing(shape),
{
    match shape {
        Shape::Unit => Ok(Answer::Unit),
        _ => Err(malformed_reply()),
    }
}

fn decode_texts(items: &Vec<WireValue>) -> (texts: Option<Vec<String>>)
    ensures
        texts is Some <==> all_texts(items.deep_view()),
        texts matches Some(list) ==> list.deep_view() == texts_of(items.deep_view()),
{
    let mut list: Vec<String> = Vec::new();
    let mut i: usize = 0;
    while i < items.len()
        invariant
            i <= items.len(),
            list.len() == i,
            forall|j: int| 0 <= j < i ==> #[trigger] items.deep_view()[j] is Text,
            forall|j: int| 0 <= j < i ==> #[trigger] list@[j]@ == items.deep_view()[j]->Text_0,
        decreases items.len() - i,
    {
        match &items[i] {
            WireValue::Text(text) => {
                list.push(text.clone());
            },
            _ => {
                assert(!(items.deep_view()[i as int] is Text));
                return None;
            },
        }
        i += 1;
    }
    assert(list.deep_view() =~= texts_of(items.deep_view()));
    Some(list)
}

fn decode_plain(shape: Shape, value: &WireValue) -> (r: Result<Answer, GraphvizmError>)
    ensures
        outcome(r) == read_plain(shape, value.deep_view()),
{
    match value {
        WireValue::Number(n) => match shape {
            Shape::Number => Ok(Answer::Number(*n)),
            _ => Err(malformed_reply()),
        },
        WireValue::Text(text) => match shape {
            Shape::Text => Ok(Answer::Text(text.clone())),
            Shape::FilledText => {
                if text.as_str().unicode_len() > 0 {
                    Ok(Answer::Text(text.clone()))
                } else {
                    Err(malformed_reply())
                }
            },
            _ => Err(malformed_reply()),
        },
        WireValue::List(items) => match shape {
            Shape::TextList => {
                assert(value.deep_view() == Wire::List(items.deep_view())) by {
                    assert(value.deep_view()->List_0 =~= items.deep_view());
                }
                match decode_texts(items) {
                    Some(list) => Ok(Answer::TextList(list)),
                    None => Err(malformed_reply()),
                }
            },
            _ => Err(malformed_reply()),
        },
        _ => Err(malformed_reply()),
    }
}

fn decode_failure(payload: &Option<Box<WireValue>>) -> (e: GraphvizmError)
    ensures
        e.deep_view() == read_failure(payload_model(*payload)),
{
    match payload {
        None => GraphvizmError::Domain(String::new()),
        Some(inner) => match &**inner {
            WireValue::Text(text) => GraphvizmError::Domain(text.clone()),
            _ => malformed_reply(),
        },
    }
}

/// Reads a reply for an operation that answers with the given shape.
pub fn decode(shape: Shape, reply: &GuestReply) -> (r: Result<Answer, GraphvizmError>)
    ensures
        outcome(r) == decoded(shape, reply.deep_view()),
{
    proof {
        reveal_with_fuel(wire_model, 2);
        reveal_with_fuel(payload_model, 2);
    }
    match reply {
        GuestReply::Fault(text) => Err(GraphvizmError::Trap(text.clone())),
        GuestReply::Nothing => decode_nothing(shape),
        GuestReply::Value(value) => match value {
            WireValue::Failure(payload) => Err(decode_failure(payload)),
            WireValue::Success(payload) => match payload {
                None => decode_nothing(shape),
                Some(inner) => decode_plain(shape, &**inner),
            },
            _ => decode_plain(shape, value),
        },
    }
}

} // verus!
