use praisechords::codes::{code_number, code_prefix, next_code, parse_optional_i32};

#[test]
fn next_code_counts_up_from_the_last_code() {
    assert_eq!(next_code("CO", Some("CO0041".to_string())), "CO0042");
    assert_eq!(next_code("CO", Some("CO9999".to_string())), "CO10000");
    assert_eq!(next_code("W", Some("W0009".to_string())), "W0010");
}

#[test]
fn next_code_starts_at_one() {
    assert_eq!(next_code("CO", None), "CO0001");
    assert_eq!(next_code("CO", Some("COabc".to_string())), "CO0001");
}

#[test]
fn code_numbers_read_after_the_prefix() {
    assert_eq!(code_number("CO", "CO0042"), Some(42));
    assert_eq!(code_number("CO", "CO-3"), Some(-3));
    assert_eq!(code_number("CO", "CO"), None);
}

#[test]
fn code_prefix_defaults_to_sub() {
    assert_eq!(code_prefix(None), "SUB");
    assert_eq!(code_prefix(Some("HI".to_string())), "HI");
}

#[test]
fn optional_numbers_are_trimmed_then_parsed() {
    assert_eq!(parse_optional_i32(&Some(" 120 ".to_string())), Some(120));
    assert_eq!(parse_optional_i32(&Some("x".to_string())), None);
    assert_eq!(parse_optional_i32(&None), None);
}
