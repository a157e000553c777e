//! Splitting command-line targets at the colon that follows a known
//! extension, and the symbol-shape guard.

use sread::input::parse_input;
use sread::text::{check_symbol, find_sub};

#[test]
fn splits_path_and_symbol_at_extension_colon() {
    assert_eq!(
        parse_input("src/app.py:main"),
        Some(("src/app.py".to_string(), "main".to_string()))
    );
    assert_eq!(
        parse_input("x.rs:top"),
        Some(("x.rs".to_string(), "top".to_string()))
    );
}

#[test]
fn keeps_colons_that_belong_to_the_path() {
    assert_eq!(
        parse_input("C:\\code\\x.ts:Foo.bar"),
        Some(("C:\\code\\x.ts".to_string(), "Foo.bar".to_string()))
    );
}

#[test]
fn tsx_target_is_not_cut_at_the_ts_marker() {
    assert_eq!(
        parse_input("a.tsx:b"),
        Some(("a.tsx".to_string(), "b".to_string()))
    );
}

#[test]
fn earlier_marker_in_the_list_wins() {
    assert_eq!(
        parse_input("a.py:b.ts:c"),
        Some(("a.py".to_string(), "b.ts:c".to_string()))
    );
}

#[test]
fn marker_with_empty_symbol_is_passed_over() {
    assert_eq!(parse_input("a.py:"), None);
    assert_eq!(
        parse_input("b.ts:x.py:"),
        Some(("b.ts".to_string(), "x.py:".to_string()))
    );
}

#[test]
fn target_without_a_known_marker_fails() {
    assert_eq!(parse_input("README.md:thing"), None);
    assert_eq!(parse_input("plain"), None);
    assert_eq!(parse_input(""), None);
}

#[test]
fn find_sub_reports_first_occurrence() {
    assert_eq!(find_sub("abcabc", "bc"), Some(1));
    assert_eq!(find_sub("abcabc", "cb"), None);
    assert_eq!(find_sub("abc", ""), Some(0));
    assert_eq!(find_sub("", "a"), None);
}

#[test]
fn check_symbol_accepts_identifiers_and_dotted_pairs() {
    assert!(check_symbol("foo"));
    assert!(check_symbol("Foo.bar"));
    assert!(check_symbol("$el_1"));
    assert!(!check_symbol(""));
    assert!(!check_symbol("a.b.c"));
    assert!(!check_symbol(".x"));
    assert!(!check_symbol("x."));
    assert!(!check_symbol("a-b"));
}
