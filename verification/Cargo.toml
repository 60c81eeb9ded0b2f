[package]
name = "github-mcp-server-rs"
version = "0.1.0"
edition = "2021"
publish = false

[dependencies]
anyhow = "1"
axum = { version = "*", default-features = false }
bytes = "1"
clap = { version = "4", features = ["derive", "env"] }
directories = "*"
futures-util = "0.3"
http = "1"
http-body = "1"
reqwest = { version = "0.12", default-features = false, features = ["rustls-tls"] }
rmcp = "*"
schemars = "1"
serde = { version = "1", features = ["derive"] }
serde_json = "1"
tokio = { version = "1", features = ["full"] }
tokio-tungstenite = { version = "0.24", features = ["rustls-tls-webpki-roots"] }
tower = "*"
tracing = "0.1"
tracing-subscriber = { version = "0.3", features = ["env-filter"] }
