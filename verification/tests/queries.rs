//! The query builders produce exactly the documented pattern text, with the
//! literal name interpolated into the equality constraint.

use sread::languages::{python, rust, typescript};

#[test]
fn python_function_query_text() {
    assert_eq!(
        python::function_query("foo"),
        "(function_definition name: (identifier) @name (#eq? @name \"foo\")) @function"
    );
}

#[test]
fn python_class_query_text() {
    assert_eq!(
        python::class_query("Foo"),
        "(class_definition name: (identifier) @name (#eq? @name \"Foo\")) @class"
    );
}

#[test]
fn python_method_query_text() {
    assert_eq!(
        python::method_query("Foo", "bar"),
        "(class_definition name: (identifier) @class_name (#eq? @class_name \"Foo\") body: (block (function_definition name: (identifier) @method_name (#eq? @method_name \"bar\")) @method))"
    );
}

#[test]
fn python_list_query_text() {
    assert_eq!(
        python::list_query(),
        "(function_definition name: (identifier) @func_name) @function (class_definition name: (identifier) @class_name) @class"
    );
}

#[test]
fn rust_function_query_text() {
    assert_eq!(
        rust::function_query("top"),
        "(function_item name: (identifier) @name (#eq? @name \"top\")) @function"
    );
}

#[test]
fn rust_class_query_text() {
    assert_eq!(
        rust::class_query("Thing"),
        "[(struct_item name: (type_identifier) @name (#eq? @name \"Thing\")) @class (enum_item name: (type_identifier) @name (#eq? @name \"Thing\")) @class]"
    );
}

#[test]
fn rust_trait_query_text() {
    assert_eq!(
        rust::trait_query("Greet"),
        "(trait_item name: (type_identifier) @name (#eq? @name \"Greet\")) @trait"
    );
}

#[test]
fn rust_method_query_text() {
    assert_eq!(
        rust::method_query("Thing", "get"),
        "(impl_item type: (type_identifier) @type_name (#eq? @type_name \"Thing\") body: (declaration_list (function_item name: (identifier) @method_name (#eq? @method_name \"get\")) @method))"
    );
}

#[test]
fn rust_list_query_text() {
    assert_eq!(
        rust::list_query(),
        "(function_item name: (identifier) @func_name) @function (struct_item name: (type_identifier) @struct_name) @struct (enum_item name: (type_identifier) @enum_name) @enum (trait_item name: (type_identifier) @trait_name) @trait (impl_item type: (type_identifier) @impl_name) @impl (mod_item name: (identifier) @mod_name) @mod"
    );
}

#[test]
fn typescript_function_query_text() {
    assert_eq!(
        typescript::function_query("f"),
        "[(function_declaration name: (identifier) @name (#eq? @name \"f\")) @function (lexical_declaration (variable_declarator name: (identifier) @name (#eq? @name \"f\") value: (arrow_function))) @function (export_statement declaration: (function_declaration name: (identifier) @name (#eq? @name \"f\"))) @function]"
    );
}

#[test]
fn typescript_class_query_text() {
    assert_eq!(
        typescript::class_query("C"),
        "[(class_declaration name: (type_identifier) @name (#eq? @name \"C\")) @class (export_statement declaration: (class_declaration name: (type_identifier) @name (#eq? @name \"C\"))) @class]"
    );
}

#[test]
fn typescript_interface_query_text() {
    assert_eq!(
        typescript::interface_query("I"),
        "[(interface_declaration name: (type_identifier) @name (#eq? @name \"I\")) @interface (export_statement declaration: (interface_declaration name: (type_identifier) @name (#eq? @name \"I\"))) @interface]"
    );
}

#[test]
fn typescript_method_query_text() {
    assert_eq!(
        typescript::method_query("C", "m"),
        "(class_declaration name: (type_identifier) @class_name (#eq? @class_name \"C\") body: (class_body (method_definition name: (property_identifier) @method_name (#eq? @method_name \"m\")) @method))"
    );
}

#[test]
fn typescript_list_query_text() {
    assert_eq!(
        typescript::list_query(),
        "(function_declaration name: (identifier) @func_name) @function (class_declaration name: (type_identifier) @class_name) @class (interface_declaration name: (type_identifier) @interface_name) @interface (lexical_declaration (variable_declarator name: (identifier) @var_name value: (arrow_function))) @arrow_func"
    );
}
