[package]
name = "localsend"
version = "0.1.0"
edition = "2021"
publish = false

[dependencies]
uuid = { version = "*", features = ["v4"] }
sha2 = "*"
rcgen = "*"
mime_guess = "*"
serde = { version = "*", features = ["derive"] }
serde_json = "*"
tokio = { version = "*", features = ["full"] }
axum = "*"
axum-server = { version = "*", features = ["tls-rustls"] }
reqwest = { version = "*", default-features = false, features = ["json", "rustls-tls"] }
clap = { version = "*", features = ["derive"] }
chrono = "*"
socket2 = "*"
anyhow = "*"
