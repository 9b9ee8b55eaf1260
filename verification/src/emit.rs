//! The line emitter: one object as one piece of JSON text.

use vstd::prelude::*;
use vstd::string::StringExecFns;
use crate::inference::InferenceMode;
use crate::row::{object_members, row_fields, row_to_object, typed_members, well_formed_members};
use crate::value::{Json, TypedValue};

verus! {

/// How an object is laid out as text.
#[derive(Clone, Copy, Debug, PartialEq, Eq, Structural)]
pub enum OutputFormat {
    /// No white space between the tokens.
    Compact,
    /// One member per line, indented by this many spaces.
    Indented(usize),
}

/// The text that `serde_json::to_string` writes for an object with these
/// members, in this order.
pub uninterp spec fn compact_json(members: Seq<(Seq<char>, Json)>) -> Seq<char>;

/// The text that a `serde_json::Serializer` with a `PrettyFormatter` writes
/// for an object with these members, in this order, where `indent` is the
/// text of one level of indentation.
pub uninterp spec fn pretty_json(members: Seq<(Seq<char>, Json)>, indent: Seq<char>) -> Seq<char>;

/// `width` spaces.
pub open spec fn spaces(width: nat) -> Seq<char> {
    Seq::new(width, |i: int| ' ')
}

/// The text of an object with these members under `format`.
pub open spec fn emit_spec(members: Seq<(Seq<char>, Json)>, format: OutputFormat) -> Seq<char> {
    match format {
        OutputFormat::Compact => compact_json(members),
        OutputFormat::Indented(width) => pretty_json(members, spaces(width as nat)),
    }
}

/// Serialises the object with `serde_json::to_string`, after building for
/// each member the `serde_json::Value` that it stands for.
///
/// Trusted: the text is a function of the members and their order, which
/// `compact_json` names. The number of a member is rebuilt from its text
/// with `serde_json::from_str`, which reads a well-formed number as the
/// number that is written back as that text; and an object whose keys are
/// strings always serialises.
#[verifier::external_body]
fn serialize_compact(object: &indexmap::IndexMap<String, TypedValue>) -> (text: String)
    requires
        well_formed_members(object_members(*object)),
    ensures
        text@ == compact_json(object_members(*object)),
{
    let tree: indexmap::IndexMap<&String, serde_json::Value> = object.iter().map(|(key, value)| (key, match value {
        TypedValue::Null => serde_json::Value::Null,
        TypedValue::Number(text) => serde_json::from_str(text).unwrap(),
        TypedValue::String(text) => serde_json::Value::String(text.clone()),
    })).collect();
    serde_json::to_string(&tree).unwrap()
}

/// Serialises the object with a `serde_json::Serializer` whose formatter is
/// `PrettyFormatter::with_indent(indent)`, after building for each member the
/// `serde_json::Value` that it stands for.
///
/// Trusted: the text is a function of the members, their order and the
/// indentation, which `pretty_json` names. Numbers are rebuilt as for the
/// compact text, and what the serialiser writes is UTF-8 since the
/// indentation is.
#[verifier::external_body]
fn serialize_pretty(object: &indexmap::IndexMap<String, TypedValue>, indent: &str) -> (text: String)
    requires
        well_formed_members(object_members(*object)),
    ensures
        text@ == pretty_json(object_members(*object), indent@),
{
    let tree: indexmap::IndexMap<&String, serde_json::Value> = object.iter().map(|(key, value)| (key, match value {
        TypedValue::Null => serde_json::Value::Null,
        TypedValue::Number(text) => serde_json::from_str(text).unwrap(),
        TypedValue::String(text) => serde_json::Value::String(text.clone()),
    })).collect();
    let formatter = serde_json::ser::PrettyFormatter::with_indent(indent.as_bytes());
    let mut serializer = serde_json::Serializer::with_formatter(Vec::new(), formatter);
    serde::Serialize::serialize(&tree, &mut serializer).unwrap();
    String::from_utf8(serializer.into_inner()).unwrap()
}

/// A string of `width` spaces.
pub fn indentation(width: usize) -> (indent: String)
    ensures
        indent@ == spaces(width as nat),
{
    let mut indent = String::new();
    let mut done: usize = 0;
    while done < width
        invariant
            done <= width,
            indent@ == spaces(done as nat),
        decreases width - done,
    {
        proof {
            reveal_strlit(" ");
        }
        indent.append(" ");
        done = done + 1;
        assert(indent@ =~= spaces(done as nat));
    }
    indent
}

/// Writes `object` as JSON text in `format`.
pub fn emit(object: &indexmap::IndexMap<String, TypedValue>, format: OutputFormat) -> (text: String)
    requires
        well_formed_members(object_members(*object)),
    ensures
        text@ == emit_spec(object_members(*object), format),
{
    match format {
        OutputFormat::Compact => serialize_compact(object),
        OutputFormat::Indented(width) => {
            let indent = indentation(width);
            serialize_pretty(object, indent.as_str())
        },
    }
}

/// The JSON text of one row: its fields typed under `mode`, written in
/// `format`, with the keys in the order of the row.
pub fn row_to_jsonl(
    row: indexmap::IndexMap<String, String>,
    mode: InferenceMode,
    format: OutputFormat,
) -> (line: String)
    ensures
        line@ == emit_spec(typed_members(row_fields(row), mode), format),
{
    let object = row_to_object(row, mode);
    emit(&object, format)
}

} // verus!
