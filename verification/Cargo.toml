[package]
name = "libicmp"
version = "0.1.1"
edition = "2021"
publish = false

[dependencies]
byteorder = "1"
libc = "0.2"
nix = { version = "0.29", features = ["poll"] }
rand = "0.8"
