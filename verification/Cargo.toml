[package]
name = "notification"
version = "0.1.0"
edition = "2021"
publish = false

[dependencies]
aes-gcm = "=0.10.3"
axum = "=0.8.9"
base64 = "=0.22.1"
chrono = { version = "=0.4.45", features = ["serde"] }
futures = "=0.3.34"
getrandom = "=0.3.4"
hex = "=0.4.3"
lenso = "=0.5.30"
lenso-capability-agent-tool-provider = "=0.3.0"
lenso-capability-notification-template = "=0.1.0"
lenso-capability-secrets = "=0.1.4"
lenso-kernel = "=0.3.13"
lenso-postgres-kit = "=0.1.1"
regex = "=1.13.1"
serde = { version = "=1.0.229", features = ["derive"] }
serde_json = "=1.0.154"
sha2 = "=0.10.9"
sqlx = { version = "=0.9.0", default-features = false, features = ["postgres", "chrono", "json", "runtime-tokio"] }
utoipa = "=5.5.0"
zeroize = "=1.9.1"
