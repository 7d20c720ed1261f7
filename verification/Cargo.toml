[package]
name = "handicapper"
version = "0.1.0"
edition = "2021"
publish = false

[dependencies]
regex = "1"
chrono = "0.4"
serde = { version = "1", features = ["derive"] }
tokio = { version = "1", features = ["fs"] }
sqlx = { version = "0.8", default-features = false, features = ["sqlite", "runtime-tokio"] }
