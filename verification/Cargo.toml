[package]
name = "copy_order"
version = "0.1.0"
edition = "2021"
publish = false

[dependencies]
tree-sitter = "0.20"
tree-sitter-bash = "0.20"
tower-lsp = "0.20"
