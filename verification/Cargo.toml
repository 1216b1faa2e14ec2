[package]
name = "execution_service"
version = "0.1.0"
edition = "2021"
publish = false

[dependencies]
uuid = { version = "*", features = ["v4"] }
serde = { version = "*", features = ["derive"] }
actix-web = "*"
actix-cors = "*"
tokio = { version = "*", features = ["time", "rt"] }
log = "*"
env_logger = "*"
