[package]
name = "config_script"
version = "0.1.0"
edition = "2021"
publish = false

[dependencies]
anyhow = "1"
rquickjs = { version = "*", features = ["futures", "loader"] }
serde_json = "1"
serde_yaml = "0.9"
tokio = { version = "1", features = ["rt"] }
