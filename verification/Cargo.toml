[package]
name = "orbiter_rs"
version = "0.1.0"
edition = "2021"
publish = false

[dependencies]
cxx = "=1.0.202"
log = { version = "=0.4.34", features = ["std"] }
