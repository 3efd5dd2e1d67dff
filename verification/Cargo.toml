[package]
name = "enum_variants_strings"
version = "0.3.0"
edition = "2021"
publish = false

[dependencies]
either_n = "*"
proc-macro2 = "1"
quote = "1"
string-cases = "*"
syn = { version = "2", features = ["full"] }
