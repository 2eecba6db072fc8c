[package]
name = "yh-extension-manager-v2"
version = "0.1.0"
edition = "2021"
publish = false

[dependencies]
axum = { version = "0.8", features = ["ws"] }
base64 = "0.22"
bytes = "1"
chrono = { version = "0.4", features = ["serde"] }
dashmap = "6"
flate2 = "1"
futures-util = { version = "0.3", features = ["sink"] }
hex = "0.4"
jsonwebtoken = "9"
libc = "0.2"
mime_guess = "2"
rand = "0.8"
reqwest = { version = "0.12", default-features = false, features = ["json", "rustls-tls"] }
sea-orm = { version = "1", default-features = false, features = ["macros", "with-json", "with-chrono"] }
serde = { version = "1", features = ["derive"] }
serde_json = "1"
sha2 = "0.10"
tar = "0.4"
tokio = { version = "1", features = ["full"] }
tokio-tungstenite = "0.26"
url = "2"
utoipa = { version = "5", features = ["chrono"] }
uuid = { version = "1", features = ["v7"] }
zip = { version = "2", default-features = false, features = ["deflate"] }
