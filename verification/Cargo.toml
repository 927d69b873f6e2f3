[package]
name = "libshpool"
version = "0.1.0"
edition = "2021"
publish = false

[dependencies]
anyhow = "1"
bincode = "1.3"
crossbeam-channel = "0.5"
libc = "0.2"
log = "0.4"
nix = "0.26"
pty = "0.2"
serde = { version = "1", features = ["derive"] }
shpool-protocol = "*"
shpool_pty = "*"
signal-hook = "0.3"
tracing = "0.1"
