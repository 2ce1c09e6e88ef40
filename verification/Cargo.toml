[package]
name = "lfa_init"
version = "0.1.0"
edition = "2021"
publish = false

[dependencies]
anyhow = "*"
clap = { version = "*", features = ["derive"] }
colored = "*"
nix = { version = "*", features = ["reboot"] }
serde = { version = "*", features = ["derive"] }
toml = "*"
