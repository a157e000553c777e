//! Symbol extraction for source files: resolve a named function, class,
//! trait/interface, or method in a parsed source file and return its exact
//! source text, or list every declared symbol.

pub mod extract;
pub mod input;
pub mod languages;
pub mod text;
