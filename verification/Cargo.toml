[package]
name = "fuser"
version = "0.18.0"
edition = "2021"
publish = false

[dependencies]
libc = "0.2"
log = "0.4"
nix = { version = "0.30", features = ["fs", "ioctl", "mount", "poll", "uio", "user"] }
parking_lot = "0.12"
