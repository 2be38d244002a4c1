//! The values that a document holds under its keys.

use vstd::prelude::*;

verus! {

/// A value of a document, as far as the settings read it. A flat document
/// holds texts only.
#[derive(Debug, PartialEq, Eq)]
pub enum Value {
    /// The JSON value `null`.
    Null,
    /// A JSON boolean.
    Bool(bool),
    /// A JSON number: its value where it is an integer from 0 to 2^64 - 1,
    /// `None` for any other number.
    Number(Option<u64>),
    /// A text.
    Text(String),
    /// A JSON array, whatever it holds.
    Array,
    /// A JSON object, whatever it holds.
    Object,
}

/// A value of a document, with its text as a sequence of characters.
pub enum ValueView {
    /// The JSON value `null`.
    Null,
    /// A JSON boolean.
    Bool(bool),
    /// A JSON number: its value where it is an integer from 0 to 2^64 - 1,
    /// `None` for any other number.
    Number(Option<u64>),
    /// A text.
    Text(Seq<char>),
    /// A JSON array, whatever it holds.
    Array,
    /// A JSON object, whatever it holds.
    Object,
}

/// A document as contracts see it: its keys and values in their order.
pub type Entries = Seq<(Seq<char>, ValueView)>;

impl View for Value {
    type V = ValueView;

    open spec fn view(&self) -> ValueView {
        match self {
            Value::Null => ValueView::Null,
            Value::Bool(b) => ValueView::Bool(*b),
            Value::Number(n) => ValueView::Number(*n),
            Value::Text(s) => ValueView::Text(s@),
            Value::Array => ValueView::Array,
            Value::Object => ValueView::Object,
        }
    }
}

impl DeepView for Value {
    type V = ValueView;

    open spec fn deep_view(&self) -> ValueView {
        self@
    }
}

} // verus!
