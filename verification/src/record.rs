//! The structured form of a call: an ordered list of named fields, ready to be encoded.

use vstd::prelude::*;

verus! {

/// A stretch of wall-clock time.
#[derive(Debug, Copy, Clone, PartialEq, Eq, Structural)]
pub struct Elapsed {
    /// The whole stretch in nanoseconds.
    pub nanos: u128,
}

/// A number or a text in a structured record.
#[derive(Debug, Clone, PartialEq, Eq)]
pub enum Value {
    Number(i64),
    Text(String),
}

/// The mathematical content of a `Value`.
pub enum ValueView {
    Number(int),
    Text(Seq<char>),
}

impl View for Value {
    type V = ValueView;

    open spec fn view(&self) -> ValueView {
        match self {
            Value::Number(n) => ValueView::Number(*n as int),
            Value::Text(text) => ValueView::Text(text@),
        }
    }
}

/// The views of a list of values, in order.
pub open spec fn values_view(values: Seq<Value>) -> Seq<ValueView> {
    values.map_values(|value: Value| value@)
}

/// What one field of a record holds.
#[derive(Debug, Clone, PartialEq, Eq)]
pub enum Field {
    /// A single number or text.
    Scalar(Value),
    /// A list of values.
    List(Vec<Value>),
    /// A duration, which an encoder writes as a fractional count of seconds.
    Duration(Elapsed),
}

/// The mathematical content of a `Field`.
pub enum FieldView {
    Scalar(ValueView),
    List(Seq<ValueView>),
    /// A duration in nanoseconds.
    Duration(nat),
}

impl View for Field {
    type V = FieldView;

    open spec fn view(&self) -> FieldView {
        match self {
            Field::Scalar(value) => FieldView::Scalar(value@),
            Field::List(values) => FieldView::List(values_view(values@)),
            Field::Duration(elapsed) => FieldView::Duration(elapsed.nanos as nat),
        }
    }
}

/// One named field of a record.
#[derive(Debug, Clone, PartialEq, Eq)]
pub struct Entry {
    pub key: String,
    pub value: Field,
}

/// The mathematical content of an `Entry`.
pub struct EntryView {
    pub key: Seq<char>,
    pub value: FieldView,
}

impl View for Entry {
    type V = EntryView;

    open spec fn view(&self) -> EntryView {
        EntryView { key: self.key@, value: self.value@ }
    }
}

/// The views of a list of entries, in order.
pub open spec fn entries_view(entries: Seq<Entry>) -> Seq<EntryView> {
    entries.map_values(|entry: Entry| entry@)
}

} // verus!
