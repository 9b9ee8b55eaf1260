//! Conversion of delimited tabular text into JSON Lines.
//!
//! An input is decoded ([`encoding`]), split into rows by the `csv` crate, and
//! each row is written as one JSON object ([`emit`]) whose keys stand in the
//! order of the columns. On the way every cell is given a JSON type
//! ([`inference`]): an empty cell is `null`, a cell that is a JSON number
//! written exactly as JSON would write it back is a number, and anything else
//! stays a string. [`convert`] runs the whole pipeline on an input held in
//! memory; [`row_to_jsonl`] converts one row.

pub mod number;
pub mod value;
pub mod inference;
pub mod row;
pub mod emit;
pub mod encoding;
pub mod options;
pub mod convert;

pub use convert::{convert, convert_rows, Converted, Malformed};
pub use emit::{emit, row_to_jsonl, OutputFormat};
pub use encoding::{decode, sniff, Encoding};
pub use inference::{classify, infer, InferenceMode};
pub use number::canonical_number;
pub use options::Options;
pub use row::row_to_object;
pub use value::{Json, TypedValue};
