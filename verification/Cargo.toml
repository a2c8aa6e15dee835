[package]
name = "nodemng"
version = "0.1.0"
edition = "2021"
publish = false

[dependencies]
ipnetwork = { version = "=0.21.1", default-features = false }
cmd_lib = "=2.0.1"
actix-web = "=4.18.1"
actix-rt = "=2.15.0"
env_logger = "=0.11.11"
