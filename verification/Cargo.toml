[package]
name = "way_edges"
version = "0.1.0"
edition = "2021"
publish = false

[dependencies]
serde = { version = "*", features = ["derive"] }
serde_jsonrc = "*"
xdg = "*"
log = "*"
env_logger = { version = "*", default-features = false }
