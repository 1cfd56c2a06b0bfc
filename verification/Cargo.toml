[package]
name = "tree_sitter_py"
version = "0.1.0"
edition = "2021"
publish = false

[dependencies]
tree-sitter = "0.20"
tree-sitter-python = "0.20"
tree-sitter-typescript = "0.20"
pyo3 = { version = "0.17", features = ["extension-module"] }
