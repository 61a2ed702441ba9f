[package]
name = "termframe"
version = "0.1.0"
edition = "2021"
publish = false

[dependencies]
anyhow = "*"
clap = { version = "*", features = ["derive"] }
crossterm = "*"
env_logger = "*"
fast_image_resize = "*"
image = "*"
indicatif = "*"
log = "*"
