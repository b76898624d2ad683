[package]
name = "mailgun_sdk"
version = "0.1.0"
edition = "2021"
publish = false

[dependencies]
serde_json = "*"
serde_urlencoded = "*"
multipart = { version = "*", default-features = false, features = ["client"] }
reqwest = { version = "*", default-features = false, features = ["blocking", "rustls-tls"] }
