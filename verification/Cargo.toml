[package]
name = "dprint-plugin-typescript"
version = "0.1.0"
edition = "2021"
publish = false

[dependencies]
dprint-core = "*"
indexmap = "*"
