//! Deterministic derivations: decimal rendering, positive-count parsing,
//! topic names, and file-sink output paths.

use sink_connector::connector::SinkError;
use sink_connector::paths::derive_sink_path;
use sink_connector::sink_build::derive_topic_name;
use sink_connector::text::{parse_positive_i32, str_eq, u64_to_dec_string};

#[test]
fn renders_zero() {
    assert_eq!(u64_to_dec_string(0), "0");
}

#[test]
fn renders_single_digit() {
    assert_eq!(u64_to_dec_string(7), "7");
}

#[test]
fn renders_large_number() {
    assert_eq!(u64_to_dec_string(1234567890), "1234567890");
    assert_eq!(u64_to_dec_string(u64::MAX), "18446744073709551615");
}

#[test]
fn str_eq_agrees_with_equality() {
    assert!(str_eq("abc", "abc"));
    assert!(!str_eq("abc", "abd"));
    assert!(!str_eq("abc", "ab"));
    assert!(str_eq("", ""));
}

#[test]
fn parses_plain_positive_values() {
    assert_eq!(parse_positive_i32("1"), Some(1));
    assert_eq!(parse_positive_i32("3"), Some(3));
    assert_eq!(parse_positive_i32("0042"), Some(42));
    assert_eq!(parse_positive_i32("2147483647"), Some(i32::MAX));
}

#[test]
fn parses_leading_plus() {
    assert_eq!(parse_positive_i32("+5"), Some(5));
}

#[test]
fn rejects_non_positive_values() {
    assert_eq!(parse_positive_i32("0"), None);
    assert_eq!(parse_positive_i32("000"), None);
    assert_eq!(parse_positive_i32("-1"), None);
}

#[test]
fn rejects_malformed_values() {
    assert_eq!(parse_positive_i32(""), None);
    assert_eq!(parse_positive_i32("+"), None);
    assert_eq!(parse_positive_i32("12a"), None);
    assert_eq!(parse_positive_i32(" 3"), None);
    assert_eq!(parse_positive_i32("2147483648"), None);
    assert_eq!(parse_positive_i32("99999999999999999999"), None);
}

#[test]
fn topic_name_is_deterministic() {
    assert_eq!(derive_topic_name("p", 7, "s"), "p-7-s");
    assert_eq!(derive_topic_name("p", 7, "s"), "p-7-s");
}

#[test]
fn derives_path_with_extension() {
    let path = derive_sink_path("/out/data.avro", 3, "x").unwrap();
    assert_eq!(path, "/out/data-3-x.avro");
}

#[test]
fn derives_path_without_extension() {
    let path = derive_sink_path("/out/archive", 2, "s").unwrap();
    assert_eq!(path, "/out/archive-2-s");
}

#[test]
fn derives_relative_path() {
    let path = derive_sink_path("data.avro", 1, "u").unwrap();
    assert_eq!(path, "data-1-u.avro");
}

#[test]
fn hidden_file_has_no_extension() {
    let path = derive_sink_path("/a/.hidden", 2, "s").unwrap();
    assert_eq!(path, "/a/.hidden-2-s");
}

#[test]
fn directory_path_has_no_stem() {
    match derive_sink_path("/out/", 3, "x") {
        Err(SinkError::PathMissingFileStem { path }) => assert_eq!(path, "/out/"),
        _ => panic!("expected PathMissingFileStem"),
    }
}

#[test]
fn empty_path_has_no_stem() {
    assert!(matches!(
        derive_sink_path("", 3, "x"),
        Err(SinkError::PathMissingFileStem { .. })
    ));
}

#[test]
fn dot_component_has_no_stem() {
    assert!(matches!(
        derive_sink_path("/out/.", 3, "x"),
        Err(SinkError::PathMissingFileStem { .. })
    ));
    assert!(matches!(
        derive_sink_path("..", 3, "x"),
        Err(SinkError::PathMissingFileStem { .. })
    ));
}
