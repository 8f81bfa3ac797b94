[package]
name = "postgres_from_row"
version = "0.1.0"
edition = "2021"
publish = false

[dependencies]
proc-macro2 = "1"
tokio-postgres = "0.7"
syn = "2"
quote = "1"
darling = "0.20"
