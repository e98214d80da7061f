[package]
name = "proxy_bind"
version = "0.1.0"
edition = "2021"
publish = false

[dependencies]
http = "=0.1.21"
tokio-core = "=0.1.18"
tower = { version = "0.4", default-features = false, features = ["reconnect"] }
