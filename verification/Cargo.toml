[package]
name = "ipctl"
version = "0.1.0"
edition = "2021"
publish = false

[dependencies]
anyhow = "1"
futures = "0.3"
netlink-packet-route = "=0.13.0"
nix = "=0.24.3"
rtnetlink = "=0.11.0"
tokio = { version = "1", features = ["rt", "rt-multi-thread"] }
