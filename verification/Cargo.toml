[package]
name = "whistle"
version = "0.1.0"
edition = "2021"
publish = false

[dependencies]
serde_json = "=1.0.154"
urlencoding = "=2.1.3"
warp = "=0.3.7"
tokio = { version = "=1.54.1", features = ["macros", "rt-multi-thread"] }
reqwest = { version = "=0.11.27", features = ["json"] }
log = "=0.4.34"
env_logger = "=0.10.2"
