[package]
name = "nanos_ui"
version = "0.1.0"
edition = "2021"
publish = false

[dependencies]
syn = "1"
quote = "1"
proc-macro2 = "1"
darling = "0.14"
