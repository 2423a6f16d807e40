[package]
name = "traceway"
version = "0.1.0"
edition = "2021"
publish = false

[dependencies]
uuid = { version = "=1.29.0", features = ["v7", "serde"] }
chrono = { version = "=0.4.45", features = ["serde"] }
sha2 = "=0.10.9"
base64 = "=0.22.1"
bcrypt = "=0.15.1"
rand = "=0.8.8"
serde_json = "=1.0.154"
hmac = "=0.12.1"
jsonwebtoken = "=9.3.1"
serde = { version = "=1.0.229", features = ["derive"] }
axum = "=0.7.9"
axum-extra = { version = "=0.9.6", features = ["multipart"] }
tokio = { version = "=1.54.1", features = ["full"] }
tokio-stream = { version = "=0.1.19", features = ["sync"] }
reqwest = { version = "=0.12.28", default-features = false, features = ["json", "gzip", "rustls-tls"] }
rusqlite = { version = "=0.31.0", features = ["bundled"] }
redis = { version = "=0.25.5", default-features = false, features = ["tokio-comp", "aio", "connection-manager"] }
tracing = "=0.1.44"
tracing-subscriber = { version = "=0.3.23", features = ["env-filter", "json"] }
clap = { version = "=4.6.7", features = ["derive"] }
toml = "=0.8.23"
dirs = "=5.0.1"
tower-http = { version = "=0.5.2", features = ["cors"] }
futures = "=0.3.34"
csv = "=1.4.0"
mime_guess = "=2.0.5"
nix = { version = "=0.28.0", features = ["signal", "process"] }
libc = "=0.2.191"
fuser = { version = "0.14", default-features = false }
