[package]
name = "llamaedge"
version = "0.1.0"
edition = "2021"
publish = false

[dependencies]
endpoints = { version = "=0.23.2", features = ["full"] }
serde_json = "1"
url = "2"
reqwest = { version = "0.12", default-features = false, features = ["json", "multipart", "stream"] }
tokio = { version = "1", features = ["full"] }
futures = "0.3"
thiserror = "2"
