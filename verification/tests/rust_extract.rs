//! Resolution against real Rust sources: structs and enums count as the
//! class kind, traits as the interface kind, and methods live in impl
//! blocks.

use sread::extract::{extract_by_type, extract_symbol, list_symbols, ExtractError, SymbolKind};

const SRC: &str = "fn top() -> u32 {\n    1\n}\n\nstruct Thing {\n    x: u32,\n}\n\nenum Kind {\n    A,\n    B,\n}\n\ntrait Greet {\n    fn hi(&self);\n}\n\nimpl Thing {\n    fn get(&self) -> u32 {\n        self.x\n    }\n}\n";

#[test]
fn plain_lookup_finds_free_function() {
    assert_eq!(extract_symbol(SRC, "rs", "top").unwrap(), "fn top() -> u32 {\n    1\n}");
}

#[test]
fn struct_is_found_as_class_kind() {
    assert_eq!(
        extract_by_type(SRC, "rs", "Thing", SymbolKind::Class).unwrap(),
        "struct Thing {\n    x: u32,\n}"
    );
}

#[test]
fn enum_is_found_as_class_kind() {
    assert_eq!(
        extract_by_type(SRC, "rs", "Kind", SymbolKind::Class).unwrap(),
        "enum Kind {\n    A,\n    B,\n}"
    );
}

#[test]
fn trait_is_found_as_interface_kind() {
    assert_eq!(
        extract_by_type(SRC, "rs", "Greet", SymbolKind::Interface).unwrap(),
        "trait Greet {\n    fn hi(&self);\n}"
    );
}

#[test]
fn plain_lookup_falls_back_to_trait() {
    assert_eq!(
        extract_symbol(SRC, "rs", "Greet").unwrap(),
        "trait Greet {\n    fn hi(&self);\n}"
    );
}

#[test]
fn dotted_lookup_finds_method_in_impl_block() {
    assert_eq!(
        extract_symbol(SRC, "rs", "Thing.get").unwrap(),
        "fn get(&self) -> u32 {\n        self.x\n    }"
    );
}

#[test]
fn dotted_lookup_on_wrong_owner_fails() {
    assert_eq!(extract_symbol(SRC, "rs", "Kind.get"), Err(ExtractError::MethodNotFound));
}

#[test]
fn listing_covers_every_declaration_shape() {
    let syms = list_symbols(SRC, "rs").unwrap();
    let pairs: Vec<(&str, &str)> =
        syms.iter().map(|s| (s.kind.as_str(), s.name.as_str())).collect();
    assert_eq!(
        pairs,
        vec![
            ("func", "top"),
            ("struct", "Thing"),
            ("enum", "Kind"),
            ("trait", "Greet"),
            ("impl", "Thing"),
            ("func", "get"),
        ]
    );
}

#[test]
fn nested_declarations_are_found_and_listed() {
    let src = "mod inner {\n    pub fn inner_function() -> u32 {\n        7\n    }\n\n    pub struct InnerStruct {\n        pub value: i32,\n    }\n}\n";
    assert_eq!(
        extract_symbol(src, "rs", "inner_function").unwrap(),
        "pub fn inner_function() -> u32 {\n        7\n    }"
    );
    assert_eq!(
        extract_by_type(src, "rs", "InnerStruct", SymbolKind::Class).unwrap(),
        "pub struct InnerStruct {\n        pub value: i32,\n    }"
    );
    let syms = list_symbols(src, "rs").unwrap();
    let pairs: Vec<(&str, &str)> =
        syms.iter().map(|s| (s.kind.as_str(), s.name.as_str())).collect();
    assert_eq!(
        pairs,
        vec![("mod", "inner"), ("func", "inner_function"), ("struct", "InnerStruct")]
    );
}

#[test]
fn listing_drops_duplicate_pairs_from_repeated_impls() {
    let src = "struct S;\n\nimpl S {\n    fn a(&self) {}\n}\n\nimpl S {\n    fn b(&self) {}\n}\n";
    let syms = list_symbols(src, "rs").unwrap();
    let pairs: Vec<(&str, &str)> =
        syms.iter().map(|s| (s.kind.as_str(), s.name.as_str())).collect();
    assert_eq!(
        pairs,
        vec![("struct", "S"), ("impl", "S"), ("func", "a"), ("func", "b")]
    );
    for i in 0..pairs.len() {
        for j in (i + 1)..pairs.len() {
            assert_ne!(pairs[i], pairs[j]);
        }
    }
}
