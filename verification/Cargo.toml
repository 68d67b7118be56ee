[package]
name = "cfprobe"
version = "0.1.0"
edition = "2021"
publish = false

[dependencies]
async-trait = "=0.1.92"
atomic-write-file = "=0.2.3"
axum = "=0.8.9"
clap = { version = "=4.6.7", features = ["derive", "env"] }
directories = "=6.0.0"
fs2 = "=0.4.3"
futures = "=0.3.34"
hex = "=0.4.3"
hickory-resolver = { version = "=0.26.3", features = ["https-ring"] }
ipnet = "=2.12.2"
reqwest = { version = "=0.12.28", default-features = false, features = ["rustls-tls", "stream", "json"] }
rustls = { version = "=0.23.46", default-features = false, features = ["ring", "std", "tls12", "logging"] }
serde = { version = "=1.0.229", features = ["derive"] }
serde_json = "=1.0.154"
sha2 = "=0.10.9"
tokio = { version = "=1.54.1", features = ["full"] }
tokio-rustls = { version = "=0.26.6", default-features = false, features = ["ring", "tls12", "logging"] }
tokio-util = "=0.7.20"
tracing = "=0.1.44"
tracing-subscriber = { version = "=0.3.23", features = ["env-filter", "json"] }
uuid = { version = "=1.29.0", features = ["v4"] }
webpki-roots = "=1.0.10"
x509-parser = "=0.18.1"
