[package]
name = "go_installer"
version = "0.1.0"
edition = "2021"
publish = false

[dependencies]
env_logger = "*"
flate2 = "*"
log = "*"
reqwest = { version = "*", default-features = false, features = ["blocking"] }
structopt = "*"
tar = "*"
