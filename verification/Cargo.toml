[package]
name = "cansentinel"
version = "0.1.0"
edition = "2021"
publish = false

[dependencies]
socketcan = { version = "3", features = ["async-io"] }
neli = "0.6"
nix = { version = "*", features = ["net"] }
tokio = { version = "1", features = ["rt-multi-thread", "macros", "sync", "time"] }
clap = { version = "4", features = ["derive"] }
git-version = "0.3"
libsystemd = "*"
