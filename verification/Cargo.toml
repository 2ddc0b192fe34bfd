[package]
name = "kak_tool"
version = "0.1.0"
edition = "2021"
publish = false

[dependencies]
nix = { version = "*", features = ["fs"] }
tokio = { version = "1", features = ["rt", "process", "io-util", "fs"] }
