[package]
name = "cool"
version = "0.1.0"
edition = "2021"
publish = false

[dependencies]
itoa = "1"
rustc-hash = "2"
ryu = "1"
tree-sitter = "*"
tree-sitter-cool = "*"
