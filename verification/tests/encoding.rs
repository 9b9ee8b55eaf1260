use csv2jsonl::encoding::{decode, sniff, Encoding};

#[test]
fn sniff_finds_the_three_marks() {
    assert_eq!(sniff(b"\xEF\xBB\xBFa,b"), Some(Encoding::Utf8));
    assert_eq!(sniff(b"\xFF\xFEa\x00"), Some(Encoding::Utf16Le));
    assert_eq!(sniff(b"\xFE\xFF\x00a"), Some(Encoding::Utf16Be));
}

#[test]
fn sniff_finds_a_mark_that_is_the_whole_input() {
    assert_eq!(sniff(b"\xEF\xBB\xBF"), Some(Encoding::Utf8));
}

#[test]
fn sniff_finds_nothing_in_plain_text() {
    assert_eq!(sniff(b"a,b\n1,2\n"), None);
    assert_eq!(sniff(b""), None);
    assert_eq!(sniff(b"\xEF\xBB\xBEa"), None);
    assert_eq!(sniff(b"\xBB\xEF\xBFa"), None);
}

#[test]
fn sniff_needs_three_bytes() {
    assert_eq!(sniff(b"\xFF\xFE"), None);
    assert_eq!(sniff(b"\xFE\xFF"), None);
    assert_eq!(sniff(b"\xEF\xBB"), None);
    assert_eq!(sniff(b"\xFF"), None);
}

#[test]
fn decode_passes_plain_text_through() {
    assert_eq!(decode(b"a,b\n1,2\n"), b"a,b\n1,2\n".to_vec());
    assert_eq!(decode(b""), Vec::<u8>::new());
    assert_eq!(decode(b"x"), b"x".to_vec());
}

#[test]
fn decode_passes_invalid_bytes_through_without_a_mark() {
    assert_eq!(decode(b"a\xFFb\x80\n"), b"a\xFFb\x80\n".to_vec());
}

#[test]
fn decode_passes_a_two_byte_input_through() {
    assert_eq!(decode(b"\xFF\xFE"), b"\xFF\xFE".to_vec());
}

#[test]
fn decode_passes_a_long_input_through() {
    let input: Vec<u8> = (0..100_000u32).map(|i| b'a' + (i % 26) as u8).collect();
    assert_eq!(decode(&input), input);
}

#[test]
fn decode_strips_the_utf8_mark() {
    assert_eq!(decode(b"\xEF\xBB\xBFa,b\n"), b"a,b\n".to_vec());
}

#[test]
fn decode_replaces_invalid_sequences_after_a_utf8_mark() {
    assert_eq!(decode(b"\xEF\xBB\xBFfoo\xFFbar"), "foo\u{FFFD}bar".as_bytes().to_vec());
}

#[test]
fn decode_transcodes_utf16_little_endian() {
    let input = b"\xFF\xFEa\x00,\x00b\x00\n\x001\x00,\x002\x00\n\x00";
    assert_eq!(decode(input), b"a,b\n1,2\n".to_vec());
}

#[test]
fn decode_transcodes_utf16_big_endian() {
    let input = b"\xFE\xFF\x00a\x00,\x00b\x00\n\x00\xFC\x00\n";
    assert_eq!(decode(input), "a,b\n\u{FC}\n".as_bytes().to_vec());
}

#[test]
fn decode_replaces_a_lone_surrogate() {
    let input = b"\xFF\xFEa\x00\x00\xD8b\x00";
    assert_eq!(decode(input), "a\u{FFFD}b".as_bytes().to_vec());
}

#[test]
fn decode_transcodes_a_long_utf16_input() {
    let mut input = vec![0xFFu8, 0xFE];
    let mut expected = Vec::new();
    for i in 0..20_000u32 {
        let byte = b'a' + (i % 26) as u8;
        input.push(byte);
        input.push(0);
        expected.push(byte);
    }
    assert_eq!(decode(&input), expected);
}
