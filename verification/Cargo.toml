[package]
name = "rustsync"
version = "0.1.0"
edition = "2021"
publish = false

[dependencies]
notify = "*"
filetime = "*"
libc = "*"
anyhow = "*"
dirs = "*"
clap = { version = "*", features = ["derive"] }
libp2p = { version = "*", default-features = false, features = ["ed25519"] }
