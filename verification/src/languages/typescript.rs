//! Structural patterns for the JS/TS family. Functions cover plain
//! declarations, arrow functions bound by a top-level `const`/`let`, and
//! exported variants; classes and interfaces cover exported variants too.
//! Two grammars share these patterns: plain TypeScript (also used for JS
//! sources) and the TSX flavour.

use vstd::prelude::*;
use vstd::string::StringExecFns;
use crate::text::is_ident;

verus! {

/// The pattern text that finds a function declaration, an arrow function
/// bound to a variable, or an exported function, named `name`.
pub open spec fn function_query_spec(name: Seq<char>) -> Seq<char> {
    "[(function_declaration name: (identifier) @name (#eq? @name \""@ + name
        + "\")) @function (lexical_declaration (variable_declarator name: (identifier) @name (#eq? @name \""@
        + name
        + "\") value: (arrow_function))) @function (export_statement declaration: (function_declaration name: (identifier) @name (#eq? @name \""@
        + name + "\"))) @function]"@
}

/// The pattern text that finds a class declaration (exported or not) whose
/// name equals `name`.
pub open spec fn class_query_spec(name: Seq<char>) -> Seq<char> {
    "[(class_declaration name: (type_identifier) @name (#eq? @name \""@ + name
        + "\")) @class (export_statement declaration: (class_declaration name: (type_identifier) @name (#eq? @name \""@
        + name + "\"))) @class]"@
}

/// The pattern text that finds an interface declaration (exported or not)
/// whose name equals `name`.
pub open spec fn interface_query_spec(name: Seq<char>) -> Seq<char> {
    "[(interface_declaration name: (type_identifier) @name (#eq? @name \""@ + name
        + "\")) @interface (export_statement declaration: (interface_declaration name: (type_identifier) @name (#eq? @name \""@
        + name + "\"))) @interface]"@
}

/// The pattern text that finds a method named `member` declared inside the
/// body of a class named `owner`.
pub open spec fn method_query_spec(owner: Seq<char>, member: Seq<char>) -> Seq<char> {
    "(class_declaration name: (type_identifier) @class_name (#eq? @class_name \""@ + owner
        + "\") body: (class_body (method_definition name: (property_identifier) @method_name (#eq? @method_name \""@
        + member + "\")) @method))"@
}

/// The pattern text that finds every function, class, interface and bound
/// arrow function, tagging each captured name with its kind.
pub open spec fn list_query_spec() -> Seq<char> {
    "(function_declaration name: (identifier) @func_name) @function (class_declaration name: (type_identifier) @class_name) @class (interface_declaration name: (type_identifier) @interface_name) @interface (lexical_declaration (variable_declarator name: (identifier) @var_name value: (arrow_function))) @arrow_func"@
}

/// Relies on tree_sitter_typescript::LANGUAGE_TYPESCRIPT: the grammar that
/// the parsing engine uses for TypeScript and plain JavaScript sources.
#[verifier::external_body]
pub fn language_typescript() -> tree_sitter::Language {
    tree_sitter_typescript::LANGUAGE_TYPESCRIPT.into()
}

/// Relies on tree_sitter_typescript::LANGUAGE_TSX: the grammar that the
/// parsing engine uses for TSX sources.
#[verifier::external_body]
pub fn language_tsx() -> tree_sitter::Language {
    tree_sitter_typescript::LANGUAGE_TSX.into()
}

pub fn function_query(name: &str) -> (r: String)
    requires
        is_ident(name@),
    ensures
        r@ == function_query_spec(name@),
{
    String::from_str("[(function_declaration name: (identifier) @name (#eq? @name \"").concat(
        name,
    ).concat(
        "\")) @function (lexical_declaration (variable_declarator name: (identifier) @name (#eq? @name \"",
    ).concat(name).concat(
        "\") value: (arrow_function))) @function (export_statement declaration: (function_declaration name: (identifier) @name (#eq? @name \"",
    ).concat(name).concat("\"))) @function]")
}

pub fn class_query(name: &str) -> (r: String)
    requires
        is_ident(name@),
    ensures
        r@ == class_query_spec(name@),
{
    String::from_str("[(class_declaration name: (type_identifier) @name (#eq? @name \"").concat(
        name,
    ).concat(
        "\")) @class (export_statement declaration: (class_declaration name: (type_identifier) @name (#eq? @name \"",
    ).concat(name).concat("\"))) @class]")
}

pub fn interface_query(name: &str) -> (r: String)
    requires
        is_ident(name@),
    ensures
        r@ == interface_query_spec(name@),
{
    String::from_str("[(interface_declaration name: (type_identifier) @name (#eq? @name \"").concat(
        name,
    ).concat(
        "\")) @interface (export_statement declaration: (interface_declaration name: (type_identifier) @name (#eq? @name \"",
    ).concat(name).concat("\"))) @interface]")
}

pub fn method_query(owner: &str, member: &str) -> (r: String)
    requires
        is_ident(owner@),
        is_ident(member@),
    ensures
        r@ == method_query_spec(owner@, member@),
{
    String::from_str("(class_declaration name: (type_identifier) @class_name (#eq? @class_name \"").concat(
        owner,
    ).concat(
        "\") body: (class_body (method_definition name: (property_identifier) @method_name (#eq? @method_name \"",
    ).concat(member).concat("\")) @method))")
}

pub fn list_query() -> (r: &'static str)
    ensures
        r@ == list_query_spec(),
{
    "(function_declaration name: (identifier) @func_name) @function (class_declaration name: (type_identifier) @class_name) @class (interface_declaration name: (type_identifier) @interface_name) @interface (lexical_declaration (variable_declarator name: (identifier) @var_name value: (arrow_function))) @arrow_func"
}

} // verus!
