[package]
name = "phytium_mci"
version = "0.1.0"
edition = "2021"
publish = false

[dependencies]
log = "0.4"
rlsf = "0.2.1"
spin = "0.10.0"
lazy_static = "1.5.0"
