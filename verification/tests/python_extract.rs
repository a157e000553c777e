//! Resolution against real Python sources, parsed by the external engine.

use sread::extract::{extract_by_type, extract_symbol, list_symbols, ExtractError, SymbolKind};

const SRC: &str = "def foo():\n    return 1\n\nclass Foo:\n    def bar(self):\n        pass\n";

#[test]
fn plain_lookup_returns_function_text() {
    let r = extract_symbol(SRC, "py", "foo").unwrap();
    assert_eq!(r, "def foo():\n    return 1");
}

#[test]
fn extracted_text_is_a_substring_of_the_source() {
    let r = extract_symbol(SRC, "py", "foo").unwrap();
    assert!(SRC.contains(&r));
    let c = extract_symbol(SRC, "py", "Foo").unwrap();
    assert!(SRC.contains(&c));
}

#[test]
fn explicit_class_lookup_returns_class_text() {
    let r = extract_by_type(SRC, "py", "Foo", SymbolKind::Class).unwrap();
    assert_eq!(r, "class Foo:\n    def bar(self):\n        pass");
}

#[test]
fn dotted_lookup_finds_method_in_owner_body() {
    let r = extract_symbol(SRC, "py", "Foo.bar").unwrap();
    assert_eq!(r, "def bar(self):\n        pass");
}

#[test]
fn dotted_lookup_for_missing_member_fails() {
    let r = extract_symbol(SRC, "py", "Foo.missing");
    assert_eq!(r, Err(ExtractError::MethodNotFound));
}

#[test]
fn member_of_a_different_owner_is_not_found() {
    let src = "class A:\n    def m(self):\n        pass\n\nclass B:\n    def other(self):\n        pass\n";
    assert_eq!(extract_symbol(src, "py", "A.m").unwrap(), "def m(self):\n        pass");
    assert_eq!(extract_symbol(src, "py", "B.m"), Err(ExtractError::MethodNotFound));
}

#[test]
fn fallback_prefers_function_over_same_named_class() {
    let src = "class same:\n    pass\n\ndef same():\n    return 2\n";
    let r = extract_symbol(src, "py", "same").unwrap();
    assert_eq!(r, "def same():\n    return 2");
}

#[test]
fn interface_lookup_always_unsupported_for_python() {
    let r = extract_by_type(SRC, "py", "Foo", SymbolKind::Interface);
    assert_eq!(r, Err(ExtractError::InterfaceNotSupported));
    let empty = extract_by_type("", "py", "Nothing", SymbolKind::Interface);
    assert_eq!(empty, Err(ExtractError::InterfaceNotSupported));
}

#[test]
fn missing_symbol_reports_symbol_not_found() {
    assert_eq!(extract_symbol(SRC, "py", "absent"), Err(ExtractError::SymbolNotFound));
}

#[test]
fn extension_matching_ignores_ascii_case() {
    let r = extract_symbol(SRC, "PY", "foo").unwrap();
    assert_eq!(r, "def foo():\n    return 1");
}

#[test]
fn listing_reports_function_and_class() {
    let syms = list_symbols(SRC, "py").unwrap();
    let pairs: Vec<(&str, &str)> =
        syms.iter().map(|s| (s.kind.as_str(), s.name.as_str())).collect();
    assert_eq!(pairs, vec![("func", "foo"), ("class", "Foo"), ("func", "bar")]);
}

#[test]
fn unsupported_extension_fails_everywhere() {
    assert_eq!(
        extract_symbol("# nothing", "md", "foo"),
        Err(ExtractError::UnsupportedFileType)
    );
    assert_eq!(
        extract_by_type("# nothing", "md", "foo", SymbolKind::Function),
        Err(ExtractError::UnsupportedFileType)
    );
    assert_eq!(
        list_symbols("# nothing", "md"),
        Err(ExtractError::UnsupportedFileType)
    );
    assert_eq!(extract_symbol("", "", "foo"), Err(ExtractError::UnsupportedFileType));
}
