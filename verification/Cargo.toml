[package]
name = "travel_time"
version = "0.1.0"
edition = "2021"
publish = false

[dependencies]
anyhow = "1"
clap = { version = "4", features = ["derive"] }
config = { version = "*", default-features = false, features = ["toml"] }
google_maps = "*"
ron = "*"
serde = { version = "1", features = ["derive"] }
tokio = { version = "1", features = ["full"] }
