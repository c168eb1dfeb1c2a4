[package]
name = "uplc_bridge"
version = "0.1.0"
edition = "2021"
publish = false

[dependencies]
uplc = "=1.1.24"
