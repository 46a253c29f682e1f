[package]
name = "cloud_manage"
version = "0.1.0"
edition = "2021"
publish = false

[dependencies]
configparser = "3"
pem = "3"
rsa = "0.9"
sha2 = "0.10"
base64 = "0.22"
chrono = "0.4"
urlencoding = "2"
serde = { version = "1", features = ["derive"] }
serde_json = "1"
toml = "0.8"
tokio = { version = "1", features = ["macros", "rt-multi-thread", "time", "sync", "net", "io-util"] }
reqwest = { version = "0.12", default-features = false, features = ["json", "rustls-tls"] }
axum = "0.7"
tower-http = { version = "0.5", features = ["cors", "trace"] }
tracing-subscriber = { version = "0.3", features = ["env-filter", "fmt"] }
futures = "0.3"
tokio-stream = "0.1"
clap = { version = "4", features = ["derive"] }
dialoguer = "0.11"
console = "0.15"
