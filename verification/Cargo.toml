[package]
name = "electron_beam"
version = "0.1.0"
edition = "2021"
publish = false

[dependencies]
anyhow = "1"
clap = { version = "4", features = ["derive"] }
env_logger = "0.11"
gif = "0.13"
image = { version = "0.25", default-features = false, features = ["png"] }
log = "0.4"
thiserror = "1"
