//! The whole pipeline on an input held in memory: decode, tokenize, type and
//! emit, row by row and in order.

use vstd::prelude::*;
use crate::emit::{emit_spec, row_to_jsonl, OutputFormat};
use crate::encoding::{decode, decode_spec};
use crate::inference::InferenceMode;
use crate::options::{lemma_tab_encoding, Options, TAB};
use crate::row::{row_fields, typed_members};

verus! {

/// `csv::Error`, what the tokenizer reports for a record that it cannot hand
/// out as a row.
#[verifier::external_type_specification]
#[verifier::external_body]
pub struct ExCsvError(csv::Error);

/// What a `csv::Reader` with this delimiter hands out for the data records of
/// `text`, in order, when each record is deserialised as a map from the
/// header's names to the record's fields: the fields of the row, or `None`
/// for a record that it refuses.
pub uninterp spec fn csv_records(text: Seq<u8>, delimiter: u8) -> Seq<
    Option<Seq<(Seq<char>, Seq<char>)>>,
>;

/// The records that a vector of the tokenizer's results stands for.
pub open spec fn records_view(
    results: Seq<Result<indexmap::IndexMap<String, String>, csv::Error>>,
) -> Seq<Option<Seq<(Seq<char>, Seq<char>)>>> {
    Seq::new(
        results.len(),
        |i: int|
            match results[i] {
                Ok(row) => Some(row_fields(row)),
                Err(_) => None,
            },
    )
}

/// Collects what
/// `csv::ReaderBuilder::new().delimiter(delimiter).from_reader(text).deserialize()`
/// yields.
///
/// Trusted: the results are a function of the text and the delimiter, which
/// `csv_records` names.
#[verifier::external_body]
fn read_rows(text: &[u8], delimiter: u8) -> (results: Vec<
    Result<indexmap::IndexMap<String, String>, csv::Error>,
>)
    ensures
        records_view(results@) == csv_records(text@, delimiter),
{
    csv::ReaderBuilder::new().delimiter(delimiter).from_reader(text).deserialize().collect()
}

/// The message of a `csv::Error`, as its `Display` gives it.
#[verifier::external_body]
fn describe(error: &csv::Error) -> (message: String) {
    error.to_string()
}

/// A record that could not be read as a row.
#[derive(Clone, Debug, PartialEq, Eq)]
pub struct Malformed {
    /// The number of data rows before it.
    pub row: usize,
    /// What the tokenizer said of it.
    pub message: String,
}

/// What a conversion produced.
#[derive(Clone, Debug, PartialEq, Eq)]
pub struct Converted {
    /// One piece of JSON text for each row that was read, in input order.
    pub lines: Vec<String>,
    /// The record at which the conversion stopped, if it did not reach the
    /// end.
    pub malformed: Option<Malformed>,
}

/// The texts of a vector of lines.
pub open spec fn lines_view(lines: Seq<String>) -> Seq<Seq<char>> {
    Seq::new(lines.len(), |i: int| lines[i]@)
}

/// Whether `lines`, stopping at `stopped_at`, is the conversion of `records`
/// under `mode` and `format`: there is a line for each record before the
/// first refused one, it is the text of that record's row, and the stop is at
/// the first refused record.
pub open spec fn converts_to(
    records: Seq<Option<Seq<(Seq<char>, Seq<char>)>>>,
    mode: InferenceMode,
    format: OutputFormat,
    lines: Seq<Seq<char>>,
    stopped_at: Option<int>,
) -> bool {
    &&& lines.len() <= records.len()
    &&& forall|i: int|
        0 <= i < lines.len() ==> (#[trigger] records[i]) is Some && lines[i] == emit_spec(
            typed_members(records[i].unwrap(), mode),
            format,
        )
    &&& match stopped_at {
        Some(row) => row == lines.len() && row < records.len() && records[row] is None,
        None => lines.len() == records.len(),
    }
}

/// Whether `lines`, stopping at `stopped_at`, is the conversion of the input
/// `input` under `options`.
pub open spec fn conversion_of(
    input: Seq<u8>,
    options: Options,
    lines: Seq<Seq<char>>,
    stopped_at: Option<int>,
) -> bool {
    converts_to(
        csv_records(decode_spec(input), options.delimiter_spec()),
        options.inference_mode_spec(),
        options.output_format_spec(),
        lines,
        stopped_at,
    )
}

impl Converted {
    /// The data row at which the conversion stopped, if any.
    pub open spec fn stopped_at(&self) -> Option<int> {
        match self.malformed {
            Some(m) => Some(m.row as int),
            None => None,
        }
    }
}

/// Converts the results of the tokenizer, in order, up to the first record
/// that it refused.
pub fn convert_rows(
    results: Vec<Result<indexmap::IndexMap<String, String>, csv::Error>>,
    mode: InferenceMode,
    format: OutputFormat,
) -> (converted: Converted)
    ensures
        converts_to(
            records_view(results@),
            mode,
            format,
            lines_view(converted.lines@),
            converted.stopped_at(),
        ),
{
    let ghost records = records_view(results@);
    let mut lines: Vec<String> = Vec::new();
    let mut malformed: Option<Malformed> = None;
    for result in it: results
        invariant
            records == records_view(it.seq()),
            lines.len() <= it.index(),
            malformed is None ==> lines.len() == it.index(),
            forall|i: int|
                0 <= i < lines.len() ==> (#[trigger] records[i]) is Some && lines[i]@ == emit_spec(
                    typed_members(records[i].unwrap(), mode),
                    format,
                ),
            match malformed {
                Some(m) => m.row == lines.len() && m.row < it.index() && records[m.row as int]
                    is None,
                None => true,
            },
    {
        if malformed.is_none() {
            match result {
                Ok(row) => {
                    let line = row_to_jsonl(row, mode, format);
                    lines.push(line);
                },
                Err(error) => {
                    malformed = Some(Malformed { row: lines.len(), message: describe(&error) });
                },
            }
        }
    }
    Converted { lines, malformed }
}

/// Converts a whole input: one piece of JSON text for each data row, in
/// input order, up to the first record that cannot be read.
pub fn convert(input: &[u8], options: &Options) -> (converted: Converted)
    requires
        options.has_delimiter(),
    ensures
        conversion_of(input@, *options, lines_view(converted.lines@), converted.stopped_at()),
{
    let text = decode(input);
    let results = read_rows(text.as_slice(), options.delimiter_byte());
    convert_rows(results, options.inference_mode(), options.output_format())
}

/// Order preservation: where every record can be read, there is exactly one
/// line for each record, the line at a place is the text of the record at
/// that place, and the conversion does not stop.
pub proof fn lemma_order_preserved(
    records: Seq<Option<Seq<(Seq<char>, Seq<char>)>>>,
    mode: InferenceMode,
    format: OutputFormat,
    lines: Seq<Seq<char>>,
    stopped_at: Option<int>,
)
    requires
        converts_to(records, mode, format, lines, stopped_at),
        forall|i: int| 0 <= i < records.len() ==> (#[trigger] records[i]) is Some,
    ensures
        stopped_at is None,
        lines.len() == records.len(),
        forall|i: int|
            0 <= i < records.len() ==> #[trigger] lines[i] == emit_spec(
                typed_members(records[i].unwrap(), mode),
                format,
            ),
{
}

/// A conversion stops at the first record that cannot be read and nowhere
/// else: the lines before it stand, and nothing after it is written.
pub proof fn lemma_stops_at_first_refusal(
    records: Seq<Option<Seq<(Seq<char>, Seq<char>)>>>,
    mode: InferenceMode,
    format: OutputFormat,
    lines: Seq<Seq<char>>,
    stopped_at: Option<int>,
    refused: int,
)
    requires
        converts_to(records, mode, format, lines, stopped_at),
        0 <= refused < records.len(),
        records[refused] is None,
    ensures
        stopped_at is Some,
        stopped_at.unwrap() <= refused,
        lines.len() == stopped_at.unwrap(),
{
}

/// The records determine the conversion: two conversions of the same records
/// under the same mode and format have the same lines and the same stop.
pub proof fn lemma_conversion_unique(
    records: Seq<Option<Seq<(Seq<char>, Seq<char>)>>>,
    mode: InferenceMode,
    format: OutputFormat,
    lines: Seq<Seq<char>>,
    stopped_at: Option<int>,
    other_lines: Seq<Seq<char>>,
    other_stopped_at: Option<int>,
)
    requires
        converts_to(records, mode, format, lines, stopped_at),
        converts_to(records, mode, format, other_lines, other_stopped_at),
    ensures
        lines == other_lines,
        stopped_at == other_stopped_at,
{
    assert forall|i: int| 0 <= i < lines.len() implies lines[i] == other_lines[i] by {
        assert(records[i] is Some);
    }
    assert(lines =~= other_lines);
}

/// Delimiter override: with `tabs` set the conversion does not depend on
/// `delimiter`, and it is the conversion with a literal tab as delimiter.
pub proof fn lemma_tabs_override(
    input: Seq<u8>,
    options: Options,
    other: Options,
    lines: Seq<Seq<char>>,
    stopped_at: Option<int>,
)
    requires
        options.tabs,
        other.indent == options.indent,
        other.no_inference == options.no_inference,
        other.tabs || other.delimiter@ == seq!['\t'],
    ensures
        options.delimiter_spec() == TAB,
        other.delimiter_spec() == TAB,
        conversion_of(input, options, lines, stopped_at) == conversion_of(
            input,
            other,
            lines,
            stopped_at,
        ),
{
    lemma_tab_encoding();
}

} // verus!
