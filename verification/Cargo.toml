[package]
name = "zino-core"
version = "0.1.0"
edition = "2021"
publish = false

[dependencies]
apache-avro = "=0.14.0"
async-trait = "=0.1.92"
axum = "=0.6.20"
chrono = "=0.4.45"
futures = "=0.3.34"
hyper = "=0.14.32"
serde = { version = "=1.0.229", features = ["derive"] }
serde_json = "=1.0.154"
sqlx = { version = "=0.6.3", default-features = false, features = ["chrono", "json", "postgres", "runtime-tokio-rustls", "uuid"] }
tokio = { version = "=1.54.1", features = ["rt-multi-thread", "time"] }
toml = "=0.5.11"
tower = { version = "=0.4.13", features = ["timeout"] }
tower-cookies = { version = "=0.9.0", features = ["signed"] }
tower-http = { version = "=0.4.4", features = ["add-extension", "compression-br", "compression-gzip", "decompression-br", "decompression-gzip", "fs"] }
tracing = "=0.1.44"
uuid = { version = "=1.29.0", features = ["v4"] }
