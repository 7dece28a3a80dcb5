[package]
name = "mutxt"
version = "0.1.0"
edition = "2021"
publish = false

[dependencies]
termion = "=1.5.6"
clipboard = "=0.1.2"
nix = { version = "=0.31.3", features = ["signal"] }
log = "=0.4.34"
env_logger = "=0.11.11"
