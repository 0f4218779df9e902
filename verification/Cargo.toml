[package]
name = "async_curl"
version = "0.1.0"
edition = "2021"
publish = false

[dependencies]
curl = { version = "0.4", features = ["static-curl"] }
tokio = { version = "1", features = ["full"] }
async-trait = "0.1"
log = "0.4"
