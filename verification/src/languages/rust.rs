//! Structural patterns for Rust sources. Rust has no classes: structure and
//! enumeration declarations both count as class-equivalent, and traits take
//! the place of interfaces. Methods are found inside `impl` blocks.

use vstd::prelude::*;
use vstd::string::StringExecFns;
use crate::text::is_ident;

verus! {

/// The pattern text that finds a free function whose name equals `name`.
pub open spec fn function_query_spec(name: Seq<char>) -> Seq<char> {
    "(function_item name: (identifier) @name (#eq? @name \""@ + name + "\")) @function"@
}

/// The pattern text that finds a struct or enum whose name equals `name`.
pub open spec fn class_query_spec(name: Seq<char>) -> Seq<char> {
    "[(struct_item name: (type_identifier) @name (#eq? @name \""@ + name
        + "\")) @class (enum_item name: (type_identifier) @name (#eq? @name \""@ + name
        + "\")) @class]"@
}

/// The pattern text that finds a trait whose name equals `name`.
pub open spec fn trait_query_spec(name: Seq<char>) -> Seq<char> {
    "(trait_item name: (type_identifier) @name (#eq? @name \""@ + name + "\")) @trait"@
}

/// The pattern text that finds a function named `member` declared inside an
/// `impl` block for the type named `owner`.
pub open spec fn method_query_spec(owner: Seq<char>, member: Seq<char>) -> Seq<char> {
    "(impl_item type: (type_identifier) @type_name (#eq? @type_name \""@ + owner
        + "\") body: (declaration_list (function_item name: (identifier) @method_name (#eq? @method_name \""@
        + member + "\")) @method))"@
}

/// The pattern text that finds every function, struct, enum, trait, impl and
/// module declaration, tagging each captured name with its kind.
pub open spec fn list_query_spec() -> Seq<char> {
    "(function_item name: (identifier) @func_name) @function (struct_item name: (type_identifier) @struct_name) @struct (enum_item name: (type_identifier) @enum_name) @enum (trait_item name: (type_identifier) @trait_name) @trait (impl_item type: (type_identifier) @impl_name) @impl (mod_item name: (identifier) @mod_name) @mod"@
}

/// Relies on tree_sitter_rust::LANGUAGE: the grammar that the parsing engine
/// uses for Rust sources.
#[verifier::external_body]
pub fn language() -> tree_sitter::Language {
    tree_sitter_rust::LANGUAGE.into()
}

pub fn function_query(name: &str) -> (r: String)
    requires
        is_ident(name@),
    ensures
        r@ == function_query_spec(name@),
{
    String::from_str("(function_item name: (identifier) @name (#eq? @name \"").concat(
        name,
    ).concat("\")) @function")
}

pub fn class_query(name: &str) -> (r: String)
    requires
        is_ident(name@),
    ensures
        r@ == class_query_spec(name@),
{
    String::from_str("[(struct_item name: (type_identifier) @name (#eq? @name \"").concat(
        name,
    ).concat("\")) @class (enum_item name: (type_identifier) @name (#eq? @name \"").concat(
        name,
    ).concat("\")) @class]")
}

pub fn trait_query(name: &str) -> (r: String)
    requires
        is_ident(name@),
    ensures
        r@ == trait_query_spec(name@),
{
    String::from_str("(trait_item name: (type_identifier) @name (#eq? @name \"").concat(
        name,
    ).concat("\")) @trait")
}

pub fn method_query(owner: &str, member: &str) -> (r: String)
    requires
        is_ident(owner@),
        is_ident(member@),
    ensures
        r@ == method_query_spec(owner@, member@),
{
    String::from_str("(impl_item type: (type_identifier) @type_name (#eq? @type_name \"").concat(
        owner,
    ).concat(
        "\") body: (declaration_list (function_item name: (identifier) @method_name (#eq? @method_name \"",
    ).concat(member).concat("\")) @method))")
}

pub fn list_query() -> (r: &'static str)
    ensures
        r@ == list_query_spec(),
{
    "(function_item name: (identifier) @func_name) @function (struct_item name: (type_identifier) @struct_name) @struct (enum_item name: (type_identifier) @enum_name) @enum (trait_item name: (type_identifier) @trait_name) @trait (impl_item type: (type_identifier) @impl_name) @impl (mod_item name: (identifier) @mod_name) @mod"
}

} // verus!
