[package]
name = "universal_connector"
version = "0.1.0"
edition = "2021"
publish = false

[dependencies]
anyhow = "*"
async-trait = "*"
axum = "*"
dotenv = "*"
futures = "*"
num_cpus = "*"
redis = { version = "=1.7.1", features = ["tokio-comp", "connection-manager"] }
reqwest = { version = "*", default-features = false, features = ["json", "rustls-tls"] }
serde = { version = "*", features = ["derive"] }
serde_json = "*"
tokio = { version = "*", features = ["full"] }
tracing = "*"
tracing-subscriber = { version = "*", features = ["env-filter"] }
urlencoding = "=2.1.3"
uuid = { version = "=1.27.0", features = ["v4"] }
