[package]
name = "cli-sandbox"
version = "0.1.0"
edition = "2021"
publish = false

[dependencies]
anyhow = "1"
better-panic = "0.3"
cargo_metadata = "0.18"
fastrand = "2"
pretty_assertions = "1"
regex = "1"
tempfile = "3"
