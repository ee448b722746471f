use xtaskops::ops::{nearest_cargo_dir_from, OpsError};
use xtaskops::textfmt::{i32_dec_string, join_path, parent_path, parse_rate_scaled, str_eq, u64_dec_string};

#[test]
fn decimal_rendering() {
    assert_eq!(u64_dec_string(0), "0");
    assert_eq!(u64_dec_string(7), "7");
    assert_eq!(u64_dec_string(10), "10");
    assert_eq!(u64_dec_string(9876543210), "9876543210");
    assert_eq!(i32_dec_string(3), "3");
    assert_eq!(i32_dec_string(-7), "-7");
    assert_eq!(i32_dec_string(-2147483648), "-2147483648");
    assert_eq!(i32_dec_string(2147483647), "2147483647");
}

#[test]
fn string_equality() {
    assert!(str_eq("", ""));
    assert!(str_eq("abc", "abc"));
    assert!(!str_eq("abc", "abd"));
    assert!(!str_eq("abc", "abcd"));
}

#[test]
fn path_joining() {
    assert_eq!(join_path("/a", "b"), "/a/b");
    assert_eq!(join_path("", "b"), "/b");
}

#[test]
fn path_parents() {
    assert_eq!(parent_path("/a/b").unwrap(), "/a");
    assert_eq!(parent_path("/a").unwrap(), "/");
    assert_eq!(parent_path("a/b").unwrap(), "a");
    assert_eq!(parent_path("a/b/").unwrap(), "a/b");
    assert!(parent_path("/").is_none());
    assert!(parent_path("plain").is_none());
    assert!(parent_path("").is_none());
}

#[test]
fn rate_scaling() {
    assert_eq!(parse_rate_scaled("0.8734").unwrap(), 8734);
    assert_eq!(parse_rate_scaled("1").unwrap(), 10000);
    assert_eq!(parse_rate_scaled("2.5").unwrap(), 25000);
    assert_eq!(parse_rate_scaled(".07").unwrap(), 700);
    assert!(parse_rate_scaled("x").is_none());
}

#[test]
fn rate_scaling_integer_width_limits() {
    assert_eq!(parse_rate_scaled("999999999999").unwrap(), 9_999_999_999_990_000);
    assert!(parse_rate_scaled("1000000000000").is_none());
}

#[test]
fn walk_without_manifest_reports_not_found() {
    let r = nearest_cargo_dir_from("no_manifest_anywhere_zzz/inner".to_string());
    assert_eq!(r, Err(OpsError::NotFound));
}
