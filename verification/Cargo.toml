[package]
name = "egg"
version = "0.1.0"
edition = "2021"
publish = false

[dependencies]
chrono = "*"
crossterm = "*"
nix = { version = "*", features = ["process", "term"] }
soloud = "*"
thiserror = "*"
