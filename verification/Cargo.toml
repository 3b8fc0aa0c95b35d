[package]
name = "librespot_player"
version = "0.1.0"
edition = "2021"
publish = false

[dependencies]
anyhow = "1"
clap = { version = "3", features = ["derive"] }
env_logger = "*"
librespot-audio = "0.2.0"
librespot-core = "0.2.0"
librespot-metadata = "0.2.0"
rodio = "0.14"
rpassword = "5"
tokio = { version = "1", features = ["rt-multi-thread", "macros"] }
