[package]
name = "learning_async"
version = "0.1.0"
edition = "2021"
publish = false

[dependencies]
log = "0.4"
nix = "0.26"
thiserror = "1"
