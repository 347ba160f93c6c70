//! The completion bridge: turns the terminal result of a call into the one settlement
//! that the host sees.
//!
//! Nothing here waits or talks to the bus. A success value is shaped into what the
//! host can hold, a failure into its message, and a value that the host cannot hold
//! becomes a failure of its own.

use crate::error::{BridgeError, BridgeErrorView, ErrorKind};
use vstd::prelude::*;
use vstd::string::*;

verus! {

/// The most entries that one array of the host can hold.
pub const MAX_ENTRIES: usize = 0xFFFF_FFFF;

/// Detail of the failure raised for a list that is longer than `MAX_ENTRIES`.
pub const TOO_MANY_ENTRIES: &'static str = "Too many entries for one array";

/// What a call that succeeded has to report.
#[derive(Clone, Debug, PartialEq, Eq)]
pub enum Value {
    /// The remote side accepted the request; there is nothing to report.
    Nothing,
    /// A string.
    Text(String),
    /// Strings, in the order the remote side gave them.
    List(Vec<String>),
}

/// A success value as contracts see it.
pub enum ValueView {
    Nothing,
    Text(Seq<char>),
    List(Seq<Seq<char>>),
}

impl View for Value {
    type V = ValueView;

    open spec fn view(&self) -> ValueView {
        match self {
            Value::Nothing => ValueView::Nothing,
            Value::Text(text) => ValueView::Text(text@),
            Value::List(list) => ValueView::List(list.deep_view()),
        }
    }
}

/// One element of an array of the host, with the index it is stored under.
#[derive(Clone, Debug, PartialEq, Eq)]
pub struct Entry {
    pub index: u32,
    pub text: String,
}

/// An array element as contracts see it.
pub struct EntryView {
    pub index: int,
    pub text: Seq<char>,
}

impl View for Entry {
    type V = EntryView;

    open spec fn view(&self) -> EntryView {
        EntryView { index: self.index as int, text: self.text@ }
    }
}

/// The value handed to the host when a call succeeds.
#[derive(Clone, Debug, PartialEq, Eq)]
pub enum Payload {
    /// No value.
    Nothing,
    /// A string of the host.
    Text(String),
    /// An array of strings of the host.
    Array(Vec<Entry>),
}

/// A payload as contracts see it.
pub enum PayloadView {
    Nothing,
    Text(Seq<char>),
    Array(Seq<EntryView>),
}

/// The elements of an array payload, each by its view.
pub open spec fn entries_view(entries: Seq<Entry>) -> Seq<EntryView> {
    Seq::new(entries.len(), |i: int| entries[i]@)
}

impl View for Payload {
    type V = PayloadView;

    open spec fn view(&self) -> PayloadView {
        match self {
            Payload::Nothing => PayloadView::Nothing,
            Payload::Text(text) => PayloadView::Text(text@),
            Payload::Array(entries) => PayloadView::Array(entries_view(entries@)),
        }
    }
}

/// How the handle that the host holds is settled.
#[derive(Clone, Debug, PartialEq, Eq)]
pub enum Settlement {
    /// The handle resolves with the payload.
    Resolved(Payload),
    /// The handle rejects with the message.
    Rejected(String),
}

/// A settlement as contracts see it.
pub enum SettlementView {
    Resolved(PayloadView),
    Rejected(Seq<char>),
}

impl View for Settlement {
    type V = SettlementView;

    open spec fn view(&self) -> SettlementView {
        match self {
            Settlement::Resolved(payload) => SettlementView::Resolved(payload@),
            Settlement::Rejected(message) => SettlementView::Rejected(message@),
        }
    }
}

/// The terminal result of a call as contracts see it.
pub open spec fn outcome_view(outcome: Result<Value, BridgeError>) -> Result<
    ValueView,
    BridgeErrorView,
> {
    match outcome {
        Ok(value) => Ok(value@),
        Err(error) => Err(error@),
    }
}

/// The strings of a list, each under its position.
pub open spec fn indexed(list: Seq<Seq<char>>) -> Seq<EntryView> {
    Seq::new(list.len(), |i: int| EntryView { index: i, text: list[i] })
}

/// The failure of a list that is too long for one array of the host.
pub open spec fn too_many_entries() -> BridgeErrorView {
    BridgeErrorView { kind: ErrorKind::Conversion, detail: TOO_MANY_ENTRIES@ }
}

/// The array that holds a list, or the failure to build one.
pub open spec fn array_of(list: Seq<Seq<char>>) -> Result<Seq<EntryView>, BridgeErrorView> {
    if list.len() <= MAX_ENTRIES {
        Ok(indexed(list))
    } else {
        Err(too_many_entries())
    }
}

/// The payload that carries a success value, or the failure to shape one.
pub open spec fn payload_of(value: ValueView) -> Result<PayloadView, BridgeErrorView> {
    match value {
        ValueView::Nothing => Ok(PayloadView::Nothing),
        ValueView::Text(text) => Ok(PayloadView::Text(text)),
        ValueView::List(list) => match array_of(list) {
            Ok(entries) => Ok(PayloadView::Array(entries)),
            Err(error) => Err(error),
        },
    }
}

/// The settlement of a terminal result: a success resolves with its payload, and a
/// failure, whether it came with the result or arose while shaping the payload,
/// rejects with its message.
pub open spec fn settlement_of(outcome: Result<ValueView, BridgeErrorView>) -> SettlementView {
    match outcome {
        Ok(value) => match payload_of(value) {
            Ok(payload) => SettlementView::Resolved(payload),
            Err(error) => SettlementView::Rejected(error.message()),
        },
        Err(error) => SettlementView::Rejected(error.message()),
    }
}

/// Lays a list out as the elements of an array of the host, each under its position.
/// Fails when the list has more than `MAX_ENTRIES` strings.
pub fn index_entries(list: &Vec<String>) -> (shaped: Result<Vec<Entry>, BridgeError>)
    ensures
        match shaped {
            Ok(entries) => array_of(list.deep_view()) == Ok::<Seq<EntryView>, BridgeErrorView>(
                entries_view(entries@),
            ),
            Err(error) => array_of(list.deep_view()) == Err::<Seq<EntryView>, BridgeErrorView>(
                error@,
            ),
        },
{
    if list.len() > MAX_ENTRIES {
        return Err(BridgeError::new(ErrorKind::Conversion, String::from_str(TOO_MANY_ENTRIES)));
    }
    let mut entries: Vec<Entry> = Vec::new();
    let mut next: u32 = 0;
    let mut i: usize = 0;
    while i < list.len()
        invariant
            list.len() <= MAX_ENTRIES,
            i <= list.len(),
            i < list.len() ==> next == i,
            entries.len() == i,
            forall|j: int|
                0 <= j < i ==> (#[trigger] entries[j])@ == (EntryView {
                    index: j,
                    text: list[j]@,
                }),
        decreases list.len() - i,
    {
        entries.push(Entry { index: next, text: list[i].clone() });
        i += 1;
        if i < list.len() {
            next += 1;
        }
    }
    assert(entries_view(entries@) =~= indexed(list.deep_view()));
    Ok(entries)
}

/// Shapes a success value into the payload for the host.
pub fn shape(value: Value) -> (shaped: Result<Payload, BridgeError>)
    ensures
        match shaped {
            Ok(payload) => payload_of(value@) == Ok::<PayloadView, BridgeErrorView>(payload@),
            Err(error) => payload_of(value@) == Err::<PayloadView, BridgeErrorView>(error@),
        },
{
    match value {
        Value::Nothing => Ok(Payload::Nothing),
        Value::Text(text) => Ok(Payload::Text(text)),
        Value::List(list) => match index_entries(&list) {
            Ok(entries) => Ok(Payload::Array(entries)),
            Err(error) => Err(error),
        },
    }
}

/// Settles a terminal result.
pub fn settle(outcome: Result<Value, BridgeError>) -> (settlement: Settlement)
    ensures
        settlement@ == settlement_of(outcome_view(outcome)),
{
    match outcome {
        Ok(value) => match shape(value) {
            Ok(payload) => Settlement::Resolved(payload),
            Err(error) => Settlement::Rejected(error.message()),
        },
        Err(error) => Settlement::Rejected(error.message()),
    }
}

} // verus!
