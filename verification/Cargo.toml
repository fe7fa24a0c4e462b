[package]
name = "concurrent_file_processor"
version = "0.1.0"
edition = "2021"
publish = false

[dependencies]
sha2 = "*"
hex = "*"
tokio = { version = "*", features = ["rt-multi-thread", "macros", "fs", "sync", "time", "io-util"] }
notify = "*"
flexi_logger = "*"
log = "*"
serde = { version = "*", features = ["derive"] }
toml = "*"
