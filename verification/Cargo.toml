[package]
name = "stellar_data"
version = "0.1.0"
edition = "2021"
publish = false

[dependencies]
stellar-xdr = { version = "*", features = ["curr", "std", "base64", "serde"] }
stellar-strkey = "*"
serde_json = "*"
serde = { version = "*", features = ["derive"] }
zstd = "*"
reqwest = { version = "*", features = ["blocking", "json"] }
tokio = { version = "*", features = ["rt-multi-thread", "macros", "net"] }
axum = "*"
tower-http = { version = "*", features = ["cors"] }
clap = { version = "*", features = ["derive"] }
anyhow = "*"
