[package]
name = "unfault_core"
version = "0.1.0"
edition = "2021"
publish = false

[dependencies]
tree-sitter = "*"
tree-sitter-python = "*"
tree-sitter-go = "*"
tree-sitter-rust = "*"
tree-sitter-typescript = "*"
serde = { version = "*", features = ["derive"] }
