use csv2jsonl::inference::{classify, infer, InferenceMode};
use csv2jsonl::number::canonical_number;
use csv2jsonl::value::TypedValue;

fn number(text: &str) -> TypedValue {
    TypedValue::Number(text.to_string())
}

fn string(text: &str) -> TypedValue {
    TypedValue::String(text.to_string())
}

fn inferred(text: &str) -> TypedValue {
    infer(text.to_string(), InferenceMode::Enabled)
}

fn kept(text: &str) -> TypedValue {
    infer(text.to_string(), InferenceMode::Disabled)
}

#[test]
fn integer_becomes_number() {
    assert_eq!(inferred("30"), number("30"));
    assert_eq!(inferred("0"), number("0"));
    assert_eq!(inferred("-7"), number("-7"));
}

#[test]
fn largest_unsigned_integer_becomes_number() {
    assert_eq!(inferred("18446744073709551615"), number("18446744073709551615"));
}

#[test]
fn smallest_signed_integer_becomes_number() {
    assert_eq!(inferred("-9223372036854775808"), number("-9223372036854775808"));
}

#[test]
fn integer_beyond_the_machine_range_stays_string() {
    assert_eq!(inferred("18446744073709551616"), string("18446744073709551616"));
}

#[test]
fn short_decimal_becomes_number() {
    assert_eq!(inferred("1.5"), number("1.5"));
    assert_eq!(inferred("-0.25"), number("-0.25"));
    assert_eq!(inferred("0.1"), number("0.1"));
}

#[test]
fn long_decimal_stays_string() {
    let text = "3.14159265358979323846264338327950288";
    assert_eq!(inferred(text), string(text));
}

#[test]
fn exponent_stays_string() {
    assert_eq!(inferred("1e3"), string("1e3"));
    assert_eq!(inferred("1E3"), string("1E3"));
    assert_eq!(inferred("2.5e-3"), string("2.5e-3"));
}

#[test]
fn leading_plus_stays_string() {
    assert_eq!(inferred("+5"), string("+5"));
}

#[test]
fn leading_zero_stays_string() {
    assert_eq!(inferred("007"), string("007"));
    assert_eq!(inferred("0042"), string("0042"));
}

#[test]
fn trailing_zero_stays_string() {
    assert_eq!(inferred("1.50"), string("1.50"));
}

#[test]
fn hexadecimal_stays_string() {
    assert_eq!(inferred("0x1A"), string("0x1A"));
}

#[test]
fn negative_zero_stays_string() {
    assert_eq!(inferred("-0"), string("-0"));
}

#[test]
fn surrounding_white_space_stays_string() {
    assert_eq!(inferred(" 1"), string(" 1"));
    assert_eq!(inferred("1 "), string("1 "));
    assert_eq!(inferred(" "), string(" "));
}

#[test]
fn other_json_literals_stay_strings() {
    assert_eq!(inferred("true"), string("true"));
    assert_eq!(inferred("false"), string("false"));
    assert_eq!(inferred("null"), string("null"));
    assert_eq!(inferred("\"30\""), string("\"30\""));
    assert_eq!(inferred("[1]"), string("[1]"));
    assert_eq!(inferred("{}"), string("{}"));
}

#[test]
fn plain_text_stays_string() {
    assert_eq!(inferred("Alice"), string("Alice"));
    assert_eq!(inferred("12 apples"), string("12 apples"));
    assert_eq!(inferred("1,5"), string("1,5"));
    assert_eq!(inferred("-"), string("-"));
    assert_eq!(inferred("."), string("."));
}

#[test]
fn deeply_nested_text_stays_string() {
    let text = "[".repeat(1000);
    assert_eq!(inferred(&text), string(&text));
}

#[test]
fn empty_field_is_null_when_inferring() {
    assert_eq!(inferred(""), TypedValue::Null);
}

#[test]
fn empty_field_is_empty_string_when_not_inferring() {
    assert_eq!(kept(""), string(""));
}

#[test]
fn disabled_inference_keeps_every_field() {
    for text in ["", "30", "-7", "1.5", "1e3", "+5", "007", "null", "Alice", " "] {
        assert_eq!(kept(text), string(text));
    }
}

#[test]
fn a_number_is_the_field_itself() {
    for text in ["30", "-7", "1.5", "1e3", "+5", "007", "1.50", "0x1A", "1.0", "0.0", "100"] {
        match inferred(text) {
            TypedValue::Number(written) => {
                assert_eq!(written, text);
                assert_eq!(canonical_number(text), Some(text.to_string()));
            }
            TypedValue::String(written) => {
                assert_eq!(written, text);
                assert_ne!(canonical_number(text), Some(text.to_string()));
            }
            TypedValue::Null => panic!("a non-empty field is never null"),
        }
    }
}

#[test]
fn inference_is_repeatable() {
    for text in ["", "30", "1e3", "Alice"] {
        assert_eq!(inferred(text), inferred(text));
        assert_eq!(kept(text), kept(text));
    }
}

#[test]
fn canonical_text_of_a_number() {
    assert_eq!(canonical_number("30"), Some("30".to_string()));
    assert_eq!(canonical_number("1e3"), Some("1000.0".to_string()));
    assert_eq!(canonical_number("1.50"), Some("1.5".to_string()));
    assert_eq!(canonical_number(" 7 "), Some("7".to_string()));
    assert_eq!(canonical_number("-0"), Some("-0.0".to_string()));
}

#[test]
fn no_canonical_text_for_what_is_no_number() {
    assert_eq!(canonical_number(""), None);
    assert_eq!(canonical_number("abc"), None);
    assert_eq!(canonical_number("007"), None);
    assert_eq!(canonical_number("+5"), None);
    assert_eq!(canonical_number("0x1A"), None);
    assert_eq!(canonical_number("true"), None);
    assert_eq!(canonical_number("\"1\""), None);
    assert_eq!(canonical_number("1 2"), None);
}

#[test]
fn classify_compares_the_canonical_text_with_the_field() {
    assert_eq!(classify("30".to_string(), Some("30".to_string())), number("30"));
    assert_eq!(classify("1e3".to_string(), Some("1000.0".to_string())), string("1e3"));
    assert_eq!(classify("abc".to_string(), None), string("abc"));
    assert_eq!(classify("30".to_string(), None), string("30"));
}
