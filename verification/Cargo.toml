[package]
name = "ws_counter"
version = "0.1.0"
edition = "2021"
publish = false

[dependencies]
base64 = "=0.23.1"
rand = "=0.10.3"
tokio-tungstenite = "=0.30.0"
tokio = { version = "*", features = ["macros", "rt-multi-thread"] }
futures = "*"
serde = { version = "*", features = ["derive"] }
schemars = "0.8"
slog = "*"
env_logger = "*"
dropshot = "=0.17.1"
reqwest = { version = "=0.12.28", default-features = false, features = ["rustls-tls"] }
