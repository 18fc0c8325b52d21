[package]
name = "envoy_exporter"
version = "0.1.0"
edition = "2021"
publish = false

[dependencies]
serde_json = "1"
serde = { version = "1", features = ["derive"] }
ureq = { version = "2", features = ["json"] }
toml = "0.8"
log = "0.4"
simple_logger = "4"
anyhow = "1"
prometheus = "0.13"
lazy_static = "1"
actix-web = "4"
rustls = "*"
