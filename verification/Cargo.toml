[package]
name = "jereko"
version = "0.1.0"
edition = "2021"
publish = false

[dependencies]
uuid = { version = "=1.29.0", features = ["v4"] }
getrandom = "=0.4.3"
wasmtime = { version = "=46.0.3", default-features = false, features = ["cranelift", "runtime", "std", "wat"] }
serde = { version = "=1.0.229", features = ["derive"] }
serde_json = "=1.0.154"
jsonc-parser = { version = "=0.34.0", features = ["serde"] }
axum = "=0.8.9"
tokio = { version = "=1.54.1", features = ["full"] }
clap = { version = "=4.6.7", features = ["derive"] }
rusqlite = { version = "=0.41.1", features = ["bundled"] }
portable-pty = "=0.9.0"
libloading = "=0.9.0"
tracing = "=0.1.44"
tracing-subscriber = { version = "=0.3.23", features = ["env-filter"] }
anyhow = "=1.0.104"
