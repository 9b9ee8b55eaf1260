//! The inference policy: which JSON type a cell gets.

use vstd::prelude::*;
use crate::number::{canonical_number, is_canonical_number, json_number};
use crate::value::{Json, TypedValue};

verus! {

/// Whether cells are given a type or are all kept as strings.
#[derive(Clone, Copy, Debug, PartialEq, Eq, Structural)]
pub enum InferenceMode {
    Enabled,
    Disabled,
}

/// The value that a non-empty `field` gets under enabled inference, given the
/// canonical text of the number it spells: a number only where that text is
/// the field itself.
pub open spec fn classify_spec(field: Seq<char>, canonical: Option<Seq<char>>) -> Json {
    if canonical == Some(field) {
        Json::Number(field)
    } else {
        Json::String(field)
    }
}

/// The value of `field` under `mode`.
pub open spec fn infer_spec(field: Seq<char>, mode: InferenceMode) -> Json {
    if mode == InferenceMode::Disabled {
        Json::String(field)
    } else if field.len() == 0 {
        Json::Null
    } else {
        classify_spec(field, json_number(field))
    }
}

/// Decides between number and string for a non-empty `field` whose canonical
/// number text, if it spells a number, is `canonical`.
pub fn classify(field: String, canonical: Option<String>) -> (value: TypedValue)
    ensures
        value@ == classify_spec(
            field@,
            match canonical {
                Some(c) => Some(c@),
                None => None,
            },
        ),
{
    match canonical {
        Some(c) => {
            if c == field {
                TypedValue::Number(field)
            } else {
                TypedValue::String(field)
            }
        },
        None => TypedValue::String(field),
    }
}

/// Infers the typed value of one cell.
pub fn infer(field: String, mode: InferenceMode) -> (value: TypedValue)
    ensures
        value@ == infer_spec(field@, mode),
        value@.well_formed(),
{
    match mode {
        InferenceMode::Disabled => TypedValue::String(field),
        InferenceMode::Enabled => {
            if field.as_str().is_empty() {
                TypedValue::Null
            } else {
                let canonical = canonical_number(field.as_str());
                classify(field, canonical)
            }
        },
    }
}

/// Round-trip safety: a field that is inferred to be a number is the text
/// of that number, and it is the text that is written back for the number it
/// spells.
pub proof fn lemma_number_round_trips(field: Seq<char>, text: Seq<char>)
    requires
        infer_spec(field, InferenceMode::Enabled) == Json::Number(text),
    ensures
        text == field,
        json_number(field) == Some(field),
{
}

/// A non-empty field is inferred to be a number exactly when it is in
/// canonical form, and is kept as a string otherwise.
pub proof fn lemma_number_iff_canonical(field: Seq<char>)
    requires
        field.len() > 0,
    ensures
        is_canonical_number(field) ==> infer_spec(field, InferenceMode::Enabled) == Json::Number(
            field,
        ),
        !is_canonical_number(field) ==> infer_spec(field, InferenceMode::Enabled) == Json::String(
            field,
        ),
{
}

/// With inference disabled every field is kept as a string, the empty one
/// too.
pub proof fn lemma_disabled_keeps_text(field: Seq<char>)
    ensures
        infer_spec(field, InferenceMode::Disabled) == Json::String(field),
{
}

/// Whatever the mode, the inferred value is well formed, and it is either
/// `Null`, for an empty field, or holds the text of the field unchanged.
pub proof fn lemma_inferred_keeps_text(field: Seq<char>, mode: InferenceMode)
    ensures
        infer_spec(field, mode).well_formed(),
        match infer_spec(field, mode) {
            Json::Null => field.len() == 0 && mode == InferenceMode::Enabled,
            Json::Number(text) => text == field,
            Json::String(text) => text == field,
        },
{
}

} // verus!
