[package]
name = "unnamed_engine"
version = "0.1.0"
edition = "2021"
publish = false

[dependencies]
winit = { version = "0.29", default-features = false, features = ["x11"] }
cgmath = "0.18"
instant = "0.1"
log = "0.4"
env_logger = { version = "0.11", default-features = false }
