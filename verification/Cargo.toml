[package]
name = "wayice"
version = "0.1.0"
edition = "2021"
publish = false

[dependencies]
serde_json = "1"
libc = "0.2"
tokio = { version = "1", features = ["full"] }
tipsy = "*"
futures-util = "0.3"
