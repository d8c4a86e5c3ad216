[package]
name = "argh_help"
version = "0.1.0"
edition = "2021"
publish = false

[dependencies]
argh_shared = "*"
proc-macro2 = "*"
quote = "*"
syn = "*"

[dev-dependencies]
serde_json = "*"
