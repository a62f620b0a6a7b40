[package]
name = "onoff_light"
version = "0.1.0"
edition = "2021"
publish = false

[dev-dependencies]
smoltcp = "=0.10.0"
