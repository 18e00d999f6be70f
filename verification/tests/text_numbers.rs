use titanhost::hashing::{hex_encode, sha256_hex};
use titanhost::numbers::{decimal_string, parse_decimal, push_decimal, signed_decimal_string};
use titanhost::text::{str_contains, str_ends_with, str_eq, str_starts_with, trim};

#[test]
fn trim_removes_unicode_white_space() {
    assert_eq!(trim("  a b \t\n"), "a b");
    assert_eq!(trim("\u{3000}x\u{a0}"), "x");
    assert_eq!(trim("   "), "");
    assert_eq!(trim(""), "");
}

#[test]
fn text_searches() {
    assert!(str_contains("hello world", "o w"));
    assert!(str_contains("abc", ""));
    assert!(!str_contains("abc", "abcd"));
    assert!(str_starts_with("backup_1.zip", "backup_"));
    assert!(!str_starts_with("back", "backup_"));
    assert!(str_ends_with("mod.jar", ".jar"));
    assert!(!str_ends_with("mod.jar.disabled", ".jar"));
    assert!(str_eq("Ядро", "Ядро"));
    assert!(!str_eq("a", "A"));
}

#[test]
fn decimal_text() {
    assert_eq!(decimal_string(0), "0");
    assert_eq!(decimal_string(25565), "25565");
    assert_eq!(decimal_string(u128::MAX), u128::MAX.to_string());
    let mut s = String::from("x=");
    push_decimal(&mut s, 42);
    assert_eq!(s, "x=42");
    assert_eq!(signed_decimal_string(-1), "-1");
    assert_eq!(signed_decimal_string(i32::MIN), "-2147483648");
    assert_eq!(signed_decimal_string(7), "7");
}

fn chars(s: &str) -> Vec<char> {
    s.chars().collect()
}

#[test]
fn decimal_parsing_follows_str_parse() {
    assert_eq!(parse_decimal(&chars("123"), 65535), Some(123));
    assert_eq!(parse_decimal(&chars("+7"), 65535), Some(7));
    assert_eq!(parse_decimal(&chars("65535"), 65535), Some(65535));
    assert_eq!(parse_decimal(&chars("65536"), 65535), None);
    assert_eq!(parse_decimal(&chars(""), 65535), None);
    assert_eq!(parse_decimal(&chars("+"), 65535), None);
    assert_eq!(parse_decimal(&chars("-1"), 65535), None);
    assert_eq!(parse_decimal(&chars("1a"), 65535), None);
    assert_eq!(parse_decimal(&chars("007"), 255), Some(7));
    for n in [0u128, 9, 10, 99, 100, 4294967295] {
        assert_eq!(parse_decimal(&chars(&decimal_string(n)), u32::MAX as u128), Some(n));
    }
}

#[test]
fn hex_and_digest() {
    assert_eq!(hex_encode(&[0x00, 0x0f, 0xab, 0xff]), "000fabff");
    assert_eq!(hex_encode(&[]), "");
    assert_eq!(
        sha256_hex(b""),
        "e3b0c44298fc1c149afbf4c8996fb92427ae41e4649b934ca495991b7852b855"
    );
    assert_eq!(
        sha256_hex(b"hello"),
        "2cf24dba5fb0a30e26e83b2ac5b9e29e1b161e5c1fa7425e73043362938b9824"
    );
}
