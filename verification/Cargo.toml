[package]
name = "deepflow_agent"
version = "0.1.0"
edition = "2021"
publish = false

[dependencies]
arc-swap = "1"
arp = "*"
hostname = "0.3"
log = "0.4"
md-5 = "0.10"
nix = "0.23"
parking_lot = "0.12"
pnet = "*"
prost = "0.10"
rand = { version = "0.8", features = ["small_rng"] }
serde = { version = "1", features = ["derive"] }
serde_json = "1"
sysinfo = "0.23"
tokio = { version = "1", features = ["rt-multi-thread", "sync", "time"] }
