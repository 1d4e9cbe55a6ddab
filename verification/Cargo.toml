[package]
name = "proxmox_daemon"
version = "0.1.0"
edition = "2021"
publish = false

[dependencies]
nix = "0.26"
percent-encoding = "2"
regex = "1"
libc = "0.2"
log = "0.4"
anyhow = "1"
http = "0.2"
tokio = { version = "1", features = ["net", "rt", "io-util", "sync", "time"] }
futures = "0.3"
