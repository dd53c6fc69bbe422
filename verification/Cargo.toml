[package]
name = "imgcap"
version = "0.1.0"
edition = "2021"
publish = false

[dependencies]
uuid = { version = "*", features = ["v4"] }
serde = { version = "*", features = ["derive"] }
serde_json = "*"
actix-web = "*"
actix-multipart = "*"
aws-config = "*"
aws-sdk-s3 = "*"
dotenv = "*"
futures-util = "*"
reqwest = { version = "*", default-features = false, features = ["json", "rustls-tls"] }
