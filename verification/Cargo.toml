[package]
name = "diesel_derive_newtype"
version = "2.1.3"
edition = "2021"
publish = false

[dependencies]
syn = "2"
quote = "1"
proc-macro2 = "1"
