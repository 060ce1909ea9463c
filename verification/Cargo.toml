[package]
name = "illumos_ugen"
version = "0.1.0"
edition = "2021"
publish = false

[dependencies]
libc = "0.2"
log = "0.4"
rustix = { version = "1", features = ["fs"] }
