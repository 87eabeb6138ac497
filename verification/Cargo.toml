[package]
name = "bootuefi"
version = "0.1.0"
edition = "2021"
publish = false

[dependencies]
anyhow = "*"
cargo_metadata = "*"
locate-cargo-manifest = "*"
tempfile = "*"
toml = "*"
wait-timeout = "*"
