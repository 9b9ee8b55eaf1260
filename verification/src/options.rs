//! The settings of one run.

use vstd::prelude::*;
use vstd::string::StringSliceAdditionalSpecFns;
use vstd::utf8::encode_utf8;
use crate::emit::OutputFormat;
use crate::inference::InferenceMode;

verus! {

/// The settings of one run, as given on the command line.
#[derive(Clone, Debug, PartialEq, Eq)]
pub struct Options {
    /// The field delimiter; its first byte is used.
    pub delimiter: String,
    /// Use a tab as delimiter, whatever `delimiter` says.
    pub tabs: bool,
    /// Indent the output by this many spaces; compact output where absent.
    pub indent: Option<usize>,
    /// Keep every cell as a string.
    pub no_inference: bool,
}

/// The tab byte.
pub const TAB: u8 = 9;

impl Options {
    /// Whether a delimiter byte can be taken from these settings.
    pub open spec fn has_delimiter(&self) -> bool {
        self.tabs || self.delimiter@.len() > 0
    }

    /// The delimiter byte: a tab where `tabs` is set, else the first byte of
    /// `delimiter`.
    pub open spec fn delimiter_spec(&self) -> u8 {
        if self.tabs {
            TAB
        } else {
            encode_utf8(self.delimiter@)[0]
        }
    }

    pub open spec fn inference_mode_spec(&self) -> InferenceMode {
        if self.no_inference {
            InferenceMode::Disabled
        } else {
            InferenceMode::Enabled
        }
    }

    pub open spec fn output_format_spec(&self) -> OutputFormat {
        match self.indent {
            Some(width) => OutputFormat::Indented(width),
            None => OutputFormat::Compact,
        }
    }

    /// The byte that separates the fields of a record.
    pub fn delimiter_byte(&self) -> (delimiter: u8)
        requires
            self.has_delimiter(),
        ensures
            delimiter == self.delimiter_spec(),
    {
        if self.tabs {
            TAB
        } else {
            let bytes = self.delimiter.as_str().as_bytes();
            proof {
                lemma_encoding_not_empty(self.delimiter@);
            }
            bytes[0]
        }
    }

    /// Whether cells are typed.
    pub fn inference_mode(&self) -> (mode: InferenceMode)
        ensures
            mode == self.inference_mode_spec(),
    {
        if self.no_inference {
            InferenceMode::Disabled
        } else {
            InferenceMode::Enabled
        }
    }

    /// The layout of the output.
    pub fn output_format(&self) -> (format: OutputFormat)
        ensures
            format == self.output_format_spec(),
    {
        match self.indent {
            Some(width) => OutputFormat::Indented(width),
            None => OutputFormat::Compact,
        }
    }
}

impl Default for Options {
    /// Comma-separated input, typed cells, compact output.
    fn default() -> (options: Options)
        ensures
            options.delimiter@ == seq![','],
            !options.tabs,
            options.indent is None,
            !options.no_inference,
    {
        proof {
            reveal_strlit(",");
        }
        let delimiter = ",".to_owned();
        assert(delimiter@ =~= seq![',']);
        Options { delimiter, tabs: false, indent: None, no_inference: false }
    }
}

/// The UTF-8 encoding of a non-empty string is not empty.
pub proof fn lemma_encoding_not_empty(chars: Seq<char>)
    requires
        chars.len() > 0,
    ensures
        encode_utf8(chars).len() > 0,
{
    reveal_with_fuel(encode_utf8, 2);
}

/// The UTF-8 encoding of a tab character is the tab byte.
pub proof fn lemma_tab_encoding()
    ensures
        encode_utf8(seq!['\t'])[0] == TAB,
{
    reveal_with_fuel(encode_utf8, 2);
    assert(seq!['\t'][0] == '\t');
    assert('\t' as u32 == 9u32);
    assert(9u32 & 0x7F == 9u32) by (bit_vector);
}

} // verus!
