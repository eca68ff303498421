[package]
name = "http-ferry"
version = "0.1.0"
edition = "2021"
publish = false

[dependencies]
aws-sdk-s3 = { version = "1", default-features = false, features = ["rt-tokio"] }
reqwest = { version = "0.12", default-features = false }
thiserror = "2"
url = "2"
