//! JSON number literals and their canonical text.

use vstd::prelude::*;

verus! {

/// The text in which `serde_json` writes the number that it reads from
/// `text`, or `None` where `text` is not one JSON number (white space round
/// it aside).
pub uninterp spec fn json_number(text: Seq<char>) -> Option<Seq<char>>;

/// Whether `text` is a JSON number in exactly the form in which it would be
/// written back.
pub open spec fn is_canonical_number(text: Seq<char>) -> bool {
    json_number(text) == Some(text)
}

/// Parses `text` with `serde_json::from_str` as a `serde_json::Value` and,
/// where the value is a number, renders it with `serde_json::to_string`.
///
/// Trusted: the result is a function of `text` alone, which `json_number`
/// names. Rendering a number cannot fail; should it, the text counts as no
/// number.
#[verifier::external_body]
fn render_parsed_number(text: &str) -> (canonical: Option<String>)
    ensures
        match canonical {
            Some(c) => json_number(text@) == Some(c@),
            None => json_number(text@).is_none(),
        },
{
    match serde_json::from_str::<serde_json::Value>(text) {
        Ok(serde_json::Value::Number(n)) => serde_json::to_string(&n).ok(),
        Ok(_) => None,
        Err(_) => None,
    }
}

/// The canonical text of the JSON number that `text` spells, if it spells
/// one.
pub fn canonical_number(text: &str) -> (canonical: Option<String>)
    ensures
        match canonical {
            Some(c) => json_number(text@) == Some(c@),
            None => json_number(text@).is_none(),
        },
{
    render_parsed_number(text)
}

} // verus!
