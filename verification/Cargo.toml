[package]
name = "login_service"
version = "0.1.0"
edition = "2021"
publish = false

[dependencies]
sha2 = "0.10"
base85 = "*"
chrono = "0.4"
jsonwebtoken = "8"
serde = { version = "1", features = ["derive"] }
reqwest = { version = "0.11", default-features = false, features = ["json", "rustls-tls"] }
tonic = "0.8"
prost-types = "0.11"
aws-sdk-dynamodb = "0.21"
