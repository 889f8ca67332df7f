[package]
name = "shortguid"
version = "0.1.0"
edition = "2021"
publish = false

[dependencies]
base64 = "0.22"
uuid = { version = "1", features = ["v4", "serde"] }
serde = "1"
arbitrary = { version = "1", features = ["derive"] }
