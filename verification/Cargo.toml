[package]
name = "blocks_ast"
version = "0.1.0"
edition = "2021"
publish = false

[dependencies]
xml-rs = "0.8"
linked-hash-map = "0.5"
serde_json = "1"
