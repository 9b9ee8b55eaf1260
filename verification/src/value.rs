//! The typed value of one cell.

use vstd::prelude::*;
use crate::number::is_canonical_number;

verus! {

/// The mathematical value of a [`TypedValue`].
pub enum Json {
    Null,
    /// A number, held as its JSON text.
    Number(Seq<char>),
    String(Seq<char>),
}

impl Json {
    /// A number is well formed when its text is a JSON number in canonical
    /// form; `Null` and strings always are.
    pub open spec fn well_formed(self) -> bool {
        match self {
            Json::Number(text) => is_canonical_number(text),
            _ => true,
        }
    }
}

/// What a cell of a row becomes in the output.
#[derive(Clone, Debug, PartialEq, Eq)]
pub enum TypedValue {
    /// JSON `null`.
    Null,
    /// A JSON number, held as the text that is written for it.
    Number(String),
    /// A JSON string with this content.
    String(String),
}

impl View for TypedValue {
    type V = Json;

    open spec fn view(&self) -> Json {
        match self {
            TypedValue::Null => Json::Null,
            TypedValue::Number(text) => Json::Number(text@),
            TypedValue::String(text) => Json::String(text@),
        }
    }
}

} // verus!
