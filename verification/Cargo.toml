[package]
name = "echo_proxy"
version = "0.1.0"
edition = "2021"
publish = false

[dependencies]
axum = "=0.5.17"
lol_html = "=1.2.1"
regex = "=1.13.1"
reqwest = { version = "=0.11.27", features = ["stream"] }
tokio = { version = "=1.54.1", features = ["full"] }
