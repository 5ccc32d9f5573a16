[package]
name = "emu8"
version = "0.1.0"
edition = "2021"
publish = false

[dependencies]
rand = "0.9"
log = "0.4"
env_logger = { version = "0.11", default-features = false }
error-iter = "0.4"
winit = { version = "0.29", default-features = false, features = ["x11", "rwh_06"] }
winit_input_helper = "0.16"
