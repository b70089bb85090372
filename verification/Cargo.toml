[package]
name = "cleanup-package-files"
version = "0.1.0"
edition = "2021"
publish = false

[dependencies]
expanduser = "*"
failure = "*"
nix = { version = "*", features = ["fs", "user"] }
pwd = "*"
structopt = "*"
