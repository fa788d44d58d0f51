[package]
name = "subsonic_client"
version = "0.1.0"
edition = "2021"
publish = false

[dependencies]
md5 = "0.7"
rand = "0.8"
serde_json = "1"
reqwest = { version = "0.11", default-features = false, features = ["blocking"] }
