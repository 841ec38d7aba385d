//! Verified core of a tool that turns a wasm-bindgen crate into an npm
//! package: cargo profiles and artifact locations, the order of the build,
//! the arguments of each external tool, and what is read from `Cargo.toml`,
//! `package.json` and `cargo metadata`.
pub mod build;
pub mod config;
pub mod text;
