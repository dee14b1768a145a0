use nix_progress::text::{chars_of, decimal, has_prefix, str_equal};
use nix_progress::utils::store_path_base;

#[test]
fn store_path_of_a_derivation() {
    assert_eq!(store_path_base("/nix/store/abc123-hello-1.0.drv"), "hello-1.0");
}

#[test]
fn path_without_slash_or_dash() {
    assert_eq!(store_path_base("noslash"), "");
}

#[test]
fn last_segment_without_dash() {
    assert_eq!(store_path_base("/a/b"), "");
    assert_eq!(store_path_base("/with-dash/b"), "");
}

#[test]
fn path_without_slash_has_no_name() {
    assert_eq!(store_path_base("a-b"), "");
    assert_eq!(store_path_base("abc-hello"), "");
    assert_eq!(store_path_base("abc-hello.drv"), "");
    assert_eq!(store_path_base("-"), "");
}

#[test]
fn one_slash_is_enough_for_a_name() {
    assert_eq!(store_path_base("/a-b"), "b");
    assert_eq!(store_path_base("x/abc-hello.drv"), "hello");
    assert_eq!(store_path_base("a-b/c"), "");
}

#[test]
fn only_the_first_dash_cuts() {
    assert_eq!(store_path_base("/nix/store/abc-a-b-c"), "a-b-c");
    assert_eq!(store_path_base("/nix/store/--x"), "-x");
    assert_eq!(store_path_base("/nix/store/abc-"), "");
}

#[test]
fn one_ending_is_taken_off() {
    assert_eq!(store_path_base("/nix/store/abc-x.drv.drv"), "x.drv");
    assert_eq!(store_path_base("/nix/store/abc-.drv"), "");
    assert_eq!(store_path_base("/nix/store/abc-drv"), "drv");
    assert_eq!(store_path_base("/nix/store/abc-x.drvx"), "x.drvx");
    assert_eq!(store_path_base("/nix/store/abc-x.DRV"), "x.DRV");
}

#[test]
fn ending_before_the_dash_stays() {
    assert_eq!(store_path_base("/nix/store/a.drv-b"), "b");
    assert_eq!(store_path_base("/nix/store/.drv"), "");
}

#[test]
fn empty_and_trailing_slash() {
    assert_eq!(store_path_base(""), "");
    assert_eq!(store_path_base("/"), "");
    assert_eq!(store_path_base("/nix/store/abc-hello/"), "");
}

#[test]
fn store_path_beyond_ascii() {
    assert_eq!(store_path_base("/st\u{f6}re/h\u{e4}sh-n\u{e4}me\u{2713}.drv"), "n\u{e4}me\u{2713}");
}

#[test]
fn decimal_of_integers() {
    assert_eq!(decimal(0), "0");
    assert_eq!(decimal(7), "7");
    assert_eq!(decimal(10), "10");
    assert_eq!(decimal(1234567890), "1234567890");
    assert_eq!(decimal(-1), "-1");
    assert_eq!(decimal(-900), "-900");
    assert_eq!(decimal(i64::MAX), "9223372036854775807");
    assert_eq!(decimal(i64::MIN), "-9223372036854775808");
}

#[test]
fn prefixes_and_equality() {
    assert!(has_prefix("linking foo", "linking "));
    assert!(!has_prefix("linkin", "linking "));
    assert!(!has_prefix("Linking foo", "linking "));
    assert!(has_prefix("anything", ""));
    assert!(has_prefix("", ""));
    assert!(!has_prefix("", "a"));
    assert!(has_prefix("\u{e9}t\u{e9}", "\u{e9}"));
    assert!(!has_prefix("\u{e9}t\u{e9}", "e"));
    assert!(str_equal("start", "start"));
    assert!(!str_equal("start", "stop"));
    assert!(!str_equal("start", "star"));
    assert!(str_equal("", ""));
    assert_eq!(chars_of("a\u{2713}b"), vec!['a', '\u{2713}', 'b']);
}
