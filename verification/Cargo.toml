[package]
name = "oauth_filter"
version = "0.1.0"
edition = "2021"
publish = false

[dependencies]
cookie = "0.14"
getrandom = "0.2"
oauth2 = { version = "3.0", default-features = false }
proxy-wasm = "0.1"
serde = { version = "1", features = ["derive"] }
serde_json = "1"
url = "2"
