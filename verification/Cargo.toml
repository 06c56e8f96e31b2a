[package]
name = "composite_image"
version = "0.1.0"
edition = "2021"
publish = false

[dependencies]
uuid = "=1.29.0"
anyhow = "=1.0.104"
nix = { version = "=0.29.0", features = ["fs"] }
thiserror = "=1.0.69"
log = "=0.4.34"
