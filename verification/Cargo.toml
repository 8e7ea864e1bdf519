[package]
name = "infra_builder"
version = "0.1.0"
edition = "2021"
publish = false

[dependencies]
toml = "0.5"
walkdir = "2"
cargo_metadata = "0.15"
syn = { version = "1", features = ["full"] }
quote = "1"
proc-macro2 = "1"
