[package]
name = "nix_progress"
version = "0.1.0"
edition = "2021"
publish = false

[dependencies]
indicatif = "0.17"
serde_json = "1"
strip-ansi-escapes = "0.1"
