[package]
name = "vocaloid"
version = "0.1.0"
edition = "2021"
publish = false

[dependencies]
failure = "0.1.8"
quick-xml = { version = "0.22.0", features = ["serialize"] }
serde = { version = "1", features = ["derive"] }
serde_json = "1"
zip = { version = "0.6.6", default-features = false, features = ["deflate"] }
