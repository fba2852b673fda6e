[package]
name = "announcer"
version = "0.1.0"
edition = "2021"
publish = false

[dependencies]
env_logger = "0.6"
log = "0.4"
serenity = { version = "0.6", features = ["voice"] }
