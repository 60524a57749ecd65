[package]
name = "vinmod_kernel"
version = "0.1.0"
edition = "2021"
publish = false

[dependencies]
gtk4 = "*"
libadwaita = { version = "*", features = ["v1_4"] }
log = "*"
env_logger = "*"
