use oc_user::output::{output_kind, OutputKind};
use oc_user::text::{parse_i32, same_text};

#[test]
fn parse_i32_reads_plain_and_signed_numbers() {
    assert_eq!(parse_i32("42"), Some(42));
    assert_eq!(parse_i32("-17"), Some(-17));
    assert_eq!(parse_i32("+5"), Some(5));
    assert_eq!(parse_i32("007"), Some(7));
    assert_eq!(parse_i32("0"), Some(0));
}

#[test]
fn parse_i32_limits() {
    assert_eq!(parse_i32("2147483647"), Some(i32::MAX));
    assert_eq!(parse_i32("-2147483648"), Some(i32::MIN));
    assert_eq!(parse_i32("2147483648"), None);
    assert_eq!(parse_i32("-2147483649"), None);
    assert_eq!(parse_i32("99999999999999999999"), None);
}

#[test]
fn parse_i32_rejects_malformed_text() {
    assert_eq!(parse_i32(""), None);
    assert_eq!(parse_i32("-"), None);
    assert_eq!(parse_i32("+"), None);
    assert_eq!(parse_i32("12a"), None);
    assert_eq!(parse_i32(" 1"), None);
    assert_eq!(parse_i32("1 "), None);
    assert_eq!(parse_i32("--1"), None);
    assert_eq!(parse_i32("1.5"), None);
}

#[test]
fn parse_i32_agrees_with_std() {
    for s in ["0", "-0", "+0", "123", "-123", "2147483647", "2147483648", "-2147483648", "x", "", "+-3", "٣"] {
        assert_eq!(parse_i32(s), s.parse::<i32>().ok(), "text {:?}", s);
    }
}

#[test]
fn same_text_compares_characters() {
    assert!(same_text("Vec<i32>", "Vec<i32>"));
    assert!(!same_text("Vec<i32>", "Vec<f32>"));
    assert!(!same_text("i32", "i3"));
    assert!(same_text("", ""));
    assert!(same_text("héllo", "héllo"));
}

#[test]
fn output_kind_names_and_codes() {
    let cases = [
        ("i32", OutputKind::I32, 1),
        ("f32", OutputKind::F32, 2),
        ("String", OutputKind::Str, 3),
        ("Vec<i32>", OutputKind::VecI32, 4),
        ("Vec<f32>", OutputKind::VecF32, 5),
        ("Vec<Vec<i32>>", OutputKind::VecVecI32, 6),
        ("Vec<Vec<f32>>", OutputKind::VecVecF32, 7),
    ];
    for (name, kind, code) in cases {
        assert_eq!(output_kind(name), Some(kind));
        assert_eq!(kind.code(), code);
    }
}

#[test]
fn output_kind_rejects_other_names() {
    assert_eq!(output_kind("u32"), None);
    assert_eq!(output_kind("string"), None);
    assert_eq!(output_kind(""), None);
    assert_eq!(output_kind("Vec<i32> "), None);
}
