use backend::handlers::callbacks::discord::{redirect_error, url_encode, REDIRECT_ERROR_BASE};
use backend::text::{i64_to_decimal, parse_i64, str_eq, trim};

#[test]
fn url_encode_keeps_unreserved_bytes() {
    assert_eq!(url_encode("AZaz09-_.~"), "AZaz09-_.~");
}

#[test]
fn url_encode_turns_spaces_into_plus() {
    assert_eq!(url_encode("hello world"), "hello+world");
}

#[test]
fn url_encode_escapes_reserved_bytes_in_upper_case() {
    assert_eq!(url_encode("a&b=c/d?e"), "a%26b%3Dc%2Fd%3Fe");
    assert_eq!(url_encode("100%+"), "100%25%2B");
}

#[test]
fn url_encode_escapes_each_utf8_byte() {
    assert_eq!(url_encode("é"), "%C3%A9");
    assert_eq!(url_encode(""), "");
}

#[test]
fn url_encode_is_injective_on_samples() {
    let samples = ["a b", "a+b", "a%2Bb", "a%20b", "", " ", "+"];
    for (i, a) in samples.iter().enumerate() {
        for (j, b) in samples.iter().enumerate() {
            if i != j {
                assert_ne!(url_encode(a), url_encode(b), "{:?} vs {:?}", a, b);
            }
        }
    }
}

#[test]
fn redirect_error_points_at_error_page_with_encoded_message() {
    let location = redirect_error("Missing authorization code");
    assert_eq!(
        location,
        "https://outed.dev/verification/error?message=Missing+authorization+code"
    );
    assert!(location.starts_with(REDIRECT_ERROR_BASE));
}

#[test]
fn parse_i64_accepts_signed_decimal() {
    assert_eq!(parse_i64("123"), Some(123));
    assert_eq!(parse_i64("+5"), Some(5));
    assert_eq!(parse_i64("-0"), Some(0));
    assert_eq!(parse_i64("-42"), Some(-42));
    assert_eq!(parse_i64("0007"), Some(7));
    assert_eq!(parse_i64("1107215937291165747"), Some(1107215937291165747));
}

#[test]
fn parse_i64_matches_std_on_edge_cases() {
    let cases = [
        "", "-", "+", "12a", " 1", "1 ", "1_000", "9223372036854775807", "9223372036854775808",
        "-9223372036854775808", "-9223372036854775809", "99999999999999999999999", "٣", "+-1",
    ];
    for c in cases {
        assert_eq!(parse_i64(c), c.parse::<i64>().ok(), "{:?}", c);
    }
}

#[test]
fn i64_to_decimal_writes_display_form() {
    for n in [0i64, 1, -1, 10, -10, 1234567890, i64::MAX, i64::MIN] {
        assert_eq!(i64_to_decimal(n), n.to_string());
    }
}

#[test]
fn parse_undoes_decimal_printing() {
    for n in [0i64, 7, -7, 42, -1000, i64::MAX, i64::MIN, 1107215937291165747] {
        assert_eq!(parse_i64(&i64_to_decimal(n)), Some(n));
    }
}

#[test]
fn trim_removes_unicode_whitespace_at_both_ends() {
    assert_eq!(trim("  abc \t\n"), "abc");
    assert_eq!(trim("\u{a0}x y\u{3000}"), "x y");
    assert_eq!(trim(""), "");
    assert_eq!(trim(" \u{2028} "), "");
    for s in ["  code ", "\u{85}a", "b\u{200a}", "no-trim"] {
        assert_eq!(trim(s), s.trim());
    }
}

#[test]
fn str_eq_compares_texts() {
    assert!(str_eq("APPLICATION_AUTHORIZED", "APPLICATION_AUTHORIZED"));
    assert!(!str_eq("APPLICATION_AUTHORIZED", "APPLICATION_DEAUTHORIZED"));
    assert!(!str_eq("a", "ab"));
    assert!(str_eq("", ""));
}
