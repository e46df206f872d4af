[package]
name = "coordinator"
version = "0.1.0"
edition = "2021"
publish = false

[dependencies]
hex = "=0.4.3"
sha2 = "=0.10.9"
base64 = "=0.22.1"
uuid = { version = "=1.29.0", features = ["v4", "serde"] }
rand = "=0.8.8"
serde = { version = "=1.0.229", features = ["derive"] }
serde_json = "=1.0.154"
anyhow = "=1.0.104"
tokio = { version = "=1.54.1", features = ["rt-multi-thread", "macros", "sync", "time", "net", "signal"] }
axum = "=0.8.9"
sqlx = { version = "=0.8.6", default-features = false, features = ["postgres", "runtime-tokio", "uuid", "chrono"] }
chrono = "=0.4.45"
reqwest = { version = "=0.12.28", default-features = false, features = ["json"] }
tracing = "=0.1.44"
tracing-subscriber = { version = "=0.3.23", features = ["env-filter", "fmt"] }
rcgen = { version = "=0.13.2", default-features = false, features = ["pem", "ring"] }
rustls = { version = "=0.23.46", default-features = false, features = ["ring", "std", "tls12", "logging"] }
axum-server = { version = "=0.7.3", features = ["tls-rustls-no-provider"] }
redis = { version = "=0.27.6", default-features = false, features = ["tokio-comp", "connection-manager"] }
x25519-dalek = { version = "2", features = ["static_secrets"] }
aes-gcm = "0.10"
