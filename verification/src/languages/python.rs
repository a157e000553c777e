//! Structural patterns for Python sources. Python has no interface concept,
//! so no interface pattern exists here; the resolver reports that kind as
//! unsupported for this language.

use vstd::prelude::*;
use vstd::string::StringExecFns;
use crate::text::is_ident;

verus! {

/// The pattern text that finds a `def` whose name equals `name`.
pub open spec fn function_query_spec(name: Seq<char>) -> Seq<char> {
    "(function_definition name: (identifier) @name (#eq? @name \""@ + name + "\")) @function"@
}

/// The pattern text that finds a `class` whose name equals `name`.
pub open spec fn class_query_spec(name: Seq<char>) -> Seq<char> {
    "(class_definition name: (identifier) @name (#eq? @name \""@ + name + "\")) @class"@
}

/// The pattern text that finds a `def` named `member` lexically inside the
/// body of a `class` named `owner`.
pub open spec fn method_query_spec(owner: Seq<char>, member: Seq<char>) -> Seq<char> {
    "(class_definition name: (identifier) @class_name (#eq? @class_name \""@ + owner
        + "\") body: (block (function_definition name: (identifier) @method_name (#eq? @method_name \""@
        + member + "\")) @method))"@
}

/// The pattern text that finds every function and class declaration,
/// tagging each captured name with its kind.
pub open spec fn list_query_spec() -> Seq<char> {
    "(function_definition name: (identifier) @func_name) @function (class_definition name: (identifier) @class_name) @class"@
}

/// Relies on tree_sitter_python::LANGUAGE: the grammar that the parsing
/// engine uses for Python sources.
#[verifier::external_body]
pub fn language() -> tree_sitter::Language {
    tree_sitter_python::LANGUAGE.into()
}

pub fn function_query(name: &str) -> (r: String)
    requires
        is_ident(name@),
    ensures
        r@ == function_query_spec(name@),
{
    String::from_str("(function_definition name: (identifier) @name (#eq? @name \"").concat(
        name,
    ).concat("\")) @function")
}

pub fn class_query(name: &str) -> (r: String)
    requires
        is_ident(name@),
    ensures
        r@ == class_query_spec(name@),
{
    String::from_str("(class_definition name: (identifier) @name (#eq? @name \"").concat(
        name,
    ).concat("\")) @class")
}

pub fn method_query(owner: &str, member: &str) -> (r: String)
    requires
        is_ident(owner@),
        is_ident(member@),
    ensures
        r@ == method_query_spec(owner@, member@),
{
    String::from_str("(class_definition name: (identifier) @class_name (#eq? @class_name \"").concat(
        owner,
    ).concat(
        "\") body: (block (function_definition name: (identifier) @method_name (#eq? @method_name \"",
    ).concat(member).concat("\")) @method))")
}

pub fn list_query() -> (r: &'static str)
    ensures
        r@ == list_query_spec(),
{
    "(function_definition name: (identifier) @func_name) @function (class_definition name: (identifier) @class_name) @class"
}

} // verus!
