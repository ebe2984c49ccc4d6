[package]
name = "clipbin"
version = "0.1.0"
edition = "2021"
publish = false

[dependencies]
sha2 = "0.10.9"
hex = "0.4.3"
base64 = "0.22.1"
image = { version = "0.25", default-features = false, features = ["png"] }
serde = { version = "1", features = ["derive"] }
serde_json = "1"
sqlx = { version = "0.8.6", default-features = false, features = ["runtime-tokio", "sqlite", "derive"] }
tokio = { version = "1", features = ["rt-multi-thread", "macros", "sync", "time"] }
chrono = "0.4.44"
arboard = "3.6.1"
log = "0.4"
anyhow = "1"
