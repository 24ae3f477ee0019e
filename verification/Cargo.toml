[package]
name = "google_testing1"
version = "4.0.1"
edition = "2021"
publish = false

[dependencies]
serde = { version = "1", features = ["derive"] }
serde_json = "1"
url = "2"
mime = "0.3"
http = "0.2"
tower-service = "0.3"
hyper = { version = "0.14", features = ["client", "http1"] }
tokio = { version = "1", features = ["io-util", "time"] }
yup-oauth2 = "8"
