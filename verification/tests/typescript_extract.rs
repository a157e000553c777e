//! Resolution against real TypeScript, JavaScript and TSX sources: one
//! grammar serves the JS family, a distinct one the TSX flavour, and both
//! share the JS/TS pattern set.

use sread::extract::{extract_by_type, extract_symbol, list_symbols, ExtractError, SymbolKind};

const SRC: &str = "function f() {\n  return 1;\n}\n\nconst g = () => 2;\n\nclass C {\n  m() {\n    return 4;\n  }\n}\n\ninterface I {\n  x: number;\n}\n";

#[test]
fn plain_lookup_finds_function_declaration() {
    assert_eq!(extract_symbol(SRC, "ts", "f").unwrap(), "function f() {\n  return 1;\n}");
}

#[test]
fn arrow_function_bound_to_variable_is_a_function() {
    assert_eq!(extract_symbol(SRC, "ts", "g").unwrap(), "const g = () => 2;");
}

#[test]
fn exported_function_is_found() {
    let src = "export function h() {\n  return 3;\n}\n";
    let r = extract_symbol(src, "ts", "h").unwrap();
    assert!(r.contains("function h()"));
    assert!(src.contains(&r));
}

#[test]
fn class_lookup_returns_class_body() {
    assert_eq!(
        extract_by_type(SRC, "ts", "C", SymbolKind::Class).unwrap(),
        "class C {\n  m() {\n    return 4;\n  }\n}"
    );
}

#[test]
fn interface_lookup_succeeds_for_typescript() {
    assert_eq!(
        extract_by_type(SRC, "ts", "I", SymbolKind::Interface).unwrap(),
        "interface I {\n  x: number;\n}"
    );
}

#[test]
fn dotted_lookup_finds_class_method() {
    assert_eq!(
        extract_symbol(SRC, "ts", "C.m").unwrap(),
        "m() {\n    return 4;\n  }"
    );
}

#[test]
fn dotted_lookup_for_missing_ts_member_fails() {
    assert_eq!(extract_symbol(SRC, "ts", "C.absent"), Err(ExtractError::MethodNotFound));
}

#[test]
fn javascript_extensions_use_the_same_grammar() {
    let src = "function j() {\n  return 9;\n}\n";
    for ext in ["js", "mjs", "cjs", "jsx", "mts", "cts"] {
        assert_eq!(extract_symbol(src, ext, "j").unwrap(), "function j() {\n  return 9;\n}");
    }
}

#[test]
fn tsx_extension_uses_the_tsx_grammar() {
    let src = "function k() {\n  return 5;\n}\n\nclass W {}\n";
    assert_eq!(extract_symbol(src, "tsx", "k").unwrap(), "function k() {\n  return 5;\n}");
    assert_eq!(extract_by_type(src, "tsx", "W", SymbolKind::Class).unwrap(), "class W {}");
}

#[test]
fn listing_tags_each_shape_with_its_kind() {
    let syms = list_symbols(SRC, "ts").unwrap();
    let pairs: Vec<(&str, &str)> =
        syms.iter().map(|s| (s.kind.as_str(), s.name.as_str())).collect();
    assert_eq!(
        pairs,
        vec![("func", "f"), ("var", "g"), ("class", "C"), ("interface", "I")]
    );
}
