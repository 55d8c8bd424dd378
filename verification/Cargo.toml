[package]
name = "child_supervisor"
version = "0.1.0"
edition = "2021"
publish = false

[dependencies]
chan = "*"
chan-signal = "*"
nix = { version = "*", features = ["user"] }
users = "*"
