[package]
name = "meos"
version = "0.1.0"
edition = "2021"
publish = false

[dependencies]
chrono = "=0.4.45"
libc = "=0.2.191"
meos-sys = { version = "=0.2.0", features = ["v1_2"] }
