use praisechords::numbers::{format_i64, parse_i32, parse_i64, parse_u16};
use praisechords::text::{empty_to_none, escape_html, normalize_accents, normalize_newlines, trim_string};

#[test]
fn escape_html_replaces_the_five_special_characters() {
    assert_eq!(
        escape_html("<a href=\"x\">Tom & 'Jerry'</a>"),
        "&lt;a href=&quot;x&quot;&gt;Tom &amp; &#x27;Jerry&#x27;&lt;/a&gt;"
    );
}

#[test]
fn escape_html_keeps_plain_text() {
    assert_eq!(escape_html("Grande é o Senhor"), "Grande é o Senhor");
    assert_eq!(escape_html(""), "");
}

#[test]
fn escape_html_escapes_an_existing_entity_again() {
    assert_eq!(escape_html("&amp;"), "&amp;amp;");
}

#[test]
fn normalize_newlines_turns_escaped_breaks_into_newlines() {
    let input = "a\\r\\nb\\nc\\rd".to_string();
    assert_eq!(normalize_newlines(input), "a\nb\nc\nd");
}

#[test]
fn normalize_newlines_is_idempotent_on_an_example() {
    let once = normalize_newlines("x\\r\\n\\\\ny".to_string());
    let twice = normalize_newlines(once.clone());
    assert_eq!(once, twice);
}

#[test]
fn normalize_newlines_leaves_real_newlines() {
    assert_eq!(normalize_newlines("a\r\nb\n".to_string()), "a\r\nb\n");
}

#[test]
fn normalize_accents_folds_portuguese_letters() {
    assert_eq!(normalize_accents("Ação É Ñ ü ÿ Ø"), "Acao E N u y O");
    assert_eq!(normalize_accents("Jesus"), "Jesus");
}

#[test]
fn normalize_accents_is_idempotent_on_an_example() {
    let once = normalize_accents("Coração");
    assert_eq!(normalize_accents(&once), once);
}

#[test]
fn empty_to_none_trims_and_drops_blank_values() {
    assert_eq!(empty_to_none("  Louvor \t".to_string()), Some("Louvor".to_string()));
    assert_eq!(empty_to_none(" \n ".to_string()), None);
    assert_eq!(empty_to_none(String::new()), None);
}

#[test]
fn trim_string_removes_unicode_whitespace() {
    assert_eq!(trim_string("\u{3000} hino \u{a0}"), "hino");
}

#[test]
fn parse_i64_follows_str_parse() {
    assert_eq!(parse_i64("42"), Some(42));
    assert_eq!(parse_i64("+42"), Some(42));
    assert_eq!(parse_i64("-17"), Some(-17));
    assert_eq!(parse_i64("-9223372036854775808"), Some(i64::MIN));
    assert_eq!(parse_i64("9223372036854775807"), Some(i64::MAX));
    assert_eq!(parse_i64("9223372036854775808"), None);
    assert_eq!(parse_i64(" 1"), None);
    assert_eq!(parse_i64(""), None);
    assert_eq!(parse_i64("-"), None);
    assert_eq!(parse_i64("12a"), None);
}

#[test]
fn parse_u16_and_i32_bounds() {
    assert_eq!(parse_u16("65535"), Some(65535));
    assert_eq!(parse_u16("65536"), None);
    assert_eq!(parse_u16("-1"), None);
    assert_eq!(parse_i32("2147483647"), Some(i32::MAX));
    assert_eq!(parse_i32("2147483648"), None);
}

#[test]
fn format_then_parse_gives_the_number_back() {
    for n in [0i64, 7, -120, i64::MIN, i64::MAX, 1_000_000] {
        let s = format_i64(n);
        assert_eq!(s, n.to_string());
        assert_eq!(parse_i64(&s), Some(n));
    }
}

#[test]
fn escaped_text_has_no_raw_markup() {
    let out = escape_html("<script>alert(\"x\" + 'y')</script>");
    assert!(!out.contains('<') && !out.contains('>') && !out.contains('"') && !out.contains('\''));
    assert!(out.len() >= "<script>alert(\"x\" + 'y')</script>".len());
}

#[test]
fn unescaping_escaped_text_gives_it_back() {
    let unescape = |t: &str| {
        t.replace("&#x27;", "'")
            .replace("&quot;", "\"")
            .replace("&gt;", ">")
            .replace("&lt;", "<")
            .replace("&amp;", "&")
    };
    for s in ["<b>\"Tom\" & 'Jerry'</b>", "&amp;lt;", "&#x27;", "plain", ""] {
        assert_eq!(unescape(&escape_html(s)), s);
    }
}
