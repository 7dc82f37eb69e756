[package]
name = "parkplatzcoder"
version = "0.1.0"
edition = "2021"
publish = false

[dependencies]
git2 = { version = "*", default-features = false }
x11rb = "*"
thiserror = "*"
serde = { version = "*", features = ["derive"] }
log = "*"
env_logger = "*"
