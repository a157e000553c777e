//! One module per supported source language: its grammar for the parsing
//! engine, and builders for the structural patterns that find a function,
//! class, interface/trait, or method declaration by name, plus the catch-all
//! listing pattern.

pub mod python;
pub mod rust;
pub mod typescript;
