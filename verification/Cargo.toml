[package]
name = "knock_request"
version = "0.1.0"
edition = "2021"
publish = false

[dependencies]
uuid = { version = "1", features = ["v4", "v5"] }
rustc-serialize = "0.3"
