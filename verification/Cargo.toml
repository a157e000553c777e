[package]
name = "sread"
version = "0.1.0"
edition = "2021"
publish = false

[dependencies]
tree-sitter = "*"
streaming-iterator = "*"
tree-sitter-python = "*"
tree-sitter-rust = "*"
tree-sitter-typescript = "*"
