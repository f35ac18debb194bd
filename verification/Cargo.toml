[package]
name = "carapace"
version = "0.2.0"
edition = "2021"
publish = false

[dependencies]
nix = "0.26"
libc = "0.2"
memchr = "2"
rand = "0.8"
path-absolutize = "3"
rlimit = "0.10"
tokio = { version = "1", features = ["rt-multi-thread", "time"] }
serde = { version = "1", features = ["derive"] }
serde_json = "1"
clap = { version = "4", features = ["derive"] }
anyhow = "1"
aligned-utils = "1"
crossbeam-utils = "0.8"
scopeguard = "1"
