[package]
name = "wasm-bodge"
version = "0.2.3"
edition = "2021"
publish = false

[dependencies]
anyhow = "1"
serde_json = "1"
toml = "*"
