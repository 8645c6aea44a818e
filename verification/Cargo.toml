[package]
name = "udo"
version = "0.1.0"
edition = "2021"
publish = false

[dependencies]
nix = { version = "*", features = ["user", "hostname", "term", "process", "time", "fs", "signal"] }
anyhow = "*"
clap = "*"
crossterm = "*"
pam-sys = "*"
serde = { version = "*", features = ["derive"] }
toml = "*"
