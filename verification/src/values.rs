//! The dynamic module's native value representation, as far as the core
//! reads or writes it.
//!
//! The embedded interpreter works on values of its own; the core only ever
//! produces scalars, strings and lists of strings, and only ever inspects a
//! returned value for the shape "list of strings". Every other shape is
//! carried as [`ScriptValue::Opaque`] and never looked into.

use vstd::prelude::*;

verus! {

/// A value crossing the boundary to or from the script module.
#[derive(Debug, Clone, PartialEq)]
pub enum ScriptValue {
    /// A textual value.
    Text(String),
    /// An integer scalar.
    Number(i64),
    /// A boolean scalar.
    Flag(bool),
    /// An ordered list of strings.
    TextList(Vec<String>),
    /// Any other shape the script may produce; the core never reads into it.
    Opaque,
}

/// The mathematical model of a [`ScriptValue`].
pub enum ScriptValueView {
    Text(Seq<char>),
    Number(i64),
    Flag(bool),
    TextList(Seq<Seq<char>>),
    Opaque,
}

impl View for ScriptValue {
    type V = ScriptValueView;

    open spec fn view(&self) -> ScriptValueView {
        match self {
            ScriptValue::Text(s) => ScriptValueView::Text(s@),
            ScriptValue::Number(n) => ScriptValueView::Number(*n),
            ScriptValue::Flag(b) => ScriptValueView::Flag(*b),
            ScriptValue::TextList(items) => ScriptValueView::TextList(items.deep_view()),
            ScriptValue::Opaque => ScriptValueView::Opaque,
        }
    }
}

impl DeepView for ScriptValue {
    type V = ScriptValueView;

    open spec fn deep_view(&self) -> ScriptValueView {
        self.view()
    }
}

} // verus!
