[package]
name = "quic_dispatch"
version = "0.1.0"
edition = "2021"
publish = false

[dependencies]
quiche = "=0.30.0"
ring = "=0.17.14"
mio = { version = "=1.2.4", features = ["net", "os-poll"] }
log = "=0.4.34"
env_logger = "=0.11.11"
nix = { version = "=0.31.3", features = ["net", "socket", "uio"] }
