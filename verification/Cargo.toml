[package]
name = "index_bench"
version = "0.1.0"
edition = "2021"
publish = false

[dependencies]
argh = "=0.1.19"
chrono = "=0.4.45"
fs_extra = "=1.3.0"
serde = { version = "=1.0.229", features = ["derive"] }
serde_json = "=1.0.154"
serde_yaml = "0.9"
toml = "0.8"
