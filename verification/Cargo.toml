[package]
name = "now_playing"
version = "0.1.0"
edition = "2021"
publish = false

[dependencies]
rand = "0.7"
serde_json = "1"
reqwest = "0.9"
structopt = "0.3"
log = "0.4"
env_logger = "0.7"
