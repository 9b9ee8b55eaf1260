//! The encoding sniffer: byte-order marks and transcoding to UTF-8.

use vstd::prelude::*;

verus! {

/// An encoding that a byte-order mark announces.
#[derive(Clone, Copy, Debug, PartialEq, Eq, Structural)]
pub enum Encoding {
    Utf8,
    Utf16Le,
    Utf16Be,
}

/// The encoding announced at the start of `bytes`, if any. A mark is only
/// looked for where at least three bytes are there.
pub open spec fn sniff_spec(bytes: Seq<u8>) -> Option<Encoding> {
    if bytes.len() < 3 {
        None
    } else if bytes[0] == 0xEF && bytes[1] == 0xBB && bytes[2] == 0xBF {
        Some(Encoding::Utf8)
    } else if bytes[0] == 0xFF && bytes[1] == 0xFE {
        Some(Encoding::Utf16Le)
    } else if bytes[0] == 0xFE && bytes[1] == 0xFF {
        Some(Encoding::Utf16Be)
    } else {
        None
    }
}

/// What an `encoding_rs_io::DecodeReaderBytes` with default settings yields
/// when it reads all of `bytes`.
pub uninterp spec fn transcoded(bytes: Seq<u8>) -> Seq<u8>;

/// The text that is handed to the tokenizer for the input `bytes`: the input
/// itself where no byte-order mark is found, else its transcoding to UTF-8.
pub open spec fn decode_spec(bytes: Seq<u8>) -> Seq<u8> {
    if sniff_spec(bytes) is None {
        bytes
    } else {
        transcoded(bytes)
    }
}

/// Reads `input` to its end through
/// `encoding_rs_io::DecodeReaderBytesBuilder::new().encoding(None).build(..)`.
///
/// Trusted: what is read is a function of the input, which `transcoded`
/// names; where the input does not start with a byte-order mark, it is the
/// input itself. Reading from a slice does not fail, and invalid sequences
/// are replaced, not refused.
#[verifier::external_body]
fn read_transcoded(input: &[u8]) -> (text: Vec<u8>)
    ensures
        text@ == transcoded(input@),
        sniff_spec(input@) is None ==> text@ == input@,
{
    let mut reader = encoding_rs_io::DecodeReaderBytesBuilder::new().encoding(None).build(input);
    let mut text = Vec::new();
    std::io::Read::read_to_end(&mut reader, &mut text).unwrap();
    text
}

/// Finds the byte-order mark at the start of `bytes`.
pub fn sniff(bytes: &[u8]) -> (encoding: Option<Encoding>)
    ensures
        encoding == sniff_spec(bytes@),
{
    if bytes.len() < 3 {
        None
    } else if bytes[0] == 0xEF && bytes[1] == 0xBB && bytes[2] == 0xBF {
        Some(Encoding::Utf8)
    } else if bytes[0] == 0xFF && bytes[1] == 0xFE {
        Some(Encoding::Utf16Le)
    } else if bytes[0] == 0xFE && bytes[1] == 0xFF {
        Some(Encoding::Utf16Be)
    } else {
        None
    }
}

/// Decodes a whole input: transcodes it to UTF-8 where it starts with a
/// byte-order mark, and passes it through unchanged where it does not.
pub fn decode(input: &[u8]) -> (text: Vec<u8>)
    ensures
        text@ == decode_spec(input@),
{
    read_transcoded(input)
}

} // verus!
