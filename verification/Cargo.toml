[package]
name = "live2d_lpk"
version = "0.1.0"
edition = "2021"
publish = false

[dependencies]
integer-encoding = "*"
md5 = "*"
serde = { version = "1", features = ["derive"] }
serde_json = "1"
zip = { version = "*", default-features = false, features = ["deflate"] }
