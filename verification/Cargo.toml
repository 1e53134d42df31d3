[package]
name = "zenith"
version = "0.1.0"
edition = "2021"
publish = false

[dependencies]
anyhow = "1"
md5 = "0.7"
serde = { version = "1", features = ["derive"] }
serde_json = "1"
sheen = "*"
ureq = { version = "2", features = ["json"] }
zip = { version = "2", default-features = false, features = ["deflate"] }
