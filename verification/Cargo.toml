[package]
name = "scribe"
version = "0.1.0"
edition = "2021"
publish = false

[dependencies]
clap = { version = "*", features = ["derive"] }
console = "*"
dirs = "*"
nix = { version = "*", features = ["signal"] }
serde = { version = "*", features = ["derive"] }
toml = "*"
