[package]
name = "scoopit-api-demo"
version = "0.1.0"
edition = "2021"
publish = false

[dependencies]
anyhow = "1"
dotenvy = "0.15"
env_logger = "*"
envy = "0.4"
log = "0.4"
prometheus = { version = "0.13", features = ["process"] }
scoopit-api = "*"
serde = { version = "1", features = ["derive"] }
tokio = { version = "1", features = ["macros", "rt-multi-thread", "time"] }
urlencoding = "2"
warp = "0.3"
