[package]
name = "endorser"
version = "0.1.0"
edition = "2021"
publish = false

[dependencies]
indy-utils = "=0.5.0"
serde = { version = "=1.0.229", features = ["derive"] }
serde_json = "=1.0.154"
web-view = "=0.7.3"
