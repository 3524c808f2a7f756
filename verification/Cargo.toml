[package]
name = "nj-derive"
version = "0.1.0"
edition = "2021"
publish = false

[dependencies]
Inflector = { version = "0.11.4", default-features = false }
proc-macro2 = "1.0"
quote = "1.0"
syn = { version = "1.0", features = ["full"] }
