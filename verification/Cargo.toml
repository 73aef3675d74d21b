[package]
name = "alexa_gateway"
version = "0.1.0"
edition = "2021"
publish = false

[dependencies]
anyhow = "*"
lambda_http = "*"
reqwest = { version = "*", default-features = false, features = ["rustls-tls", "json"] }
serde = { version = "*", features = ["derive"] }
serde_json = "*"
tokio = { version = "*", features = ["macros", "rt", "net", "time"] }
url = "*"
