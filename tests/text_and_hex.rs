use menu_maker::hex::{
    hex_strings_equal, normalize_hex, parse_color_field, require_color_field,
    sanitize_hex_color_input,
};
use menu_maker::text::{eq_ignore_ascii_case, parse_decimal, push_decimal, trim};

#[test]
fn trim_removes_outer_whitespace() {
    assert_eq!(trim("  a b \t\n"), "a b");
    assert_eq!(trim("   "), "");
    assert_eq!(trim(""), "");
    assert_eq!(trim("\u{3000}x\u{a0}"), "x");
}

#[test]
fn decimal_parsing_follows_unsigned_rules() {
    assert_eq!(parse_decimal("42", 65535), Some(42));
    assert_eq!(parse_decimal("+7", 65535), Some(7));
    assert_eq!(parse_decimal("0065535", 65535), Some(65535));
    assert_eq!(parse_decimal("65536", 65535), None);
    assert_eq!(parse_decimal("", 65535), None);
    assert_eq!(parse_decimal("+", 65535), None);
    assert_eq!(parse_decimal("-1", 65535), None);
    assert_eq!(parse_decimal("1a", 65535), None);
    assert_eq!(parse_decimal("99999999999999999999999", u64::MAX), None);
}

#[test]
fn decimal_formatting() {
    let mut s = String::from("n=");
    push_decimal(&mut s, 0);
    assert_eq!(s, "n=0");
    let mut t = String::new();
    push_decimal(&mut t, 1203);
    assert_eq!(t, "1203");
}

#[test]
fn ascii_case_insensitive_compare() {
    assert!(eq_ignore_ascii_case("Default", "dEFAULT"));
    assert!(!eq_ignore_ascii_case("Default", "Defaults"));
    assert!(!eq_ignore_ascii_case("É", "é"));
}

#[test]
fn normalize_adds_hash() {
    assert_eq!(normalize_hex("abc123"), "#abc123");
    assert_eq!(normalize_hex("  #ABC123 "), "#ABC123");
}

#[test]
fn normalize_falls_back_to_white() {
    assert_eq!(normalize_hex("#ABC"), "#ffffff");
    assert_eq!(normalize_hex(""), "#ffffff");
}

#[test]
fn normalize_is_idempotent_on_samples() {
    for x in ["abc123", "#ABC", "  12ab34", "#1234567", "zzzzzz", ""] {
        let once = normalize_hex(x);
        assert_eq!(normalize_hex(&once), once);
    }
}

#[test]
fn short_hex_is_rejected_by_validation() {
    assert_eq!(sanitize_hex_color_input("#ABC"), None);
    assert_eq!(sanitize_hex_color_input("ff00zz"), None);
    assert_eq!(sanitize_hex_color_input("+fffff"), None);
    assert_eq!(sanitize_hex_color_input(" ff0000 "), Some("#ff0000".to_string()));
}

#[test]
fn hex_equality_ignores_case_and_hash() {
    assert!(hex_strings_equal("#ABCDEF", "abcdef"));
    assert!(!hex_strings_equal("#ABCDEF", "abcdee"));
    assert!(!hex_strings_equal("#ABC", "#ABC"));
}

#[test]
fn color_field_parsing() {
    assert_eq!(parse_color_field("   "), Ok(None));
    assert_eq!(parse_color_field("00ff00"), Ok(Some("#00ff00".to_string())));
    assert_eq!(
        parse_color_field("#00ff0"),
        Err("Colors must use #RRGGBB format".to_string())
    );
}

#[test]
fn required_color_field() {
    assert_eq!(
        require_color_field("", "Primary"),
        Err("Primary color is required when creating a custom theme".to_string())
    );
    assert_eq!(require_color_field("112233", "Primary"), Ok("#112233".to_string()));
    assert_eq!(
        require_color_field("xyz", "Primary"),
        Err("Colors must use #RRGGBB format".to_string())
    );
}
