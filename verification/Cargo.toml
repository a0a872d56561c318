[package]
name = "photovault"
version = "0.1.0"
edition = "2021"
publish = false

[dependencies]
chrono = { version = "=0.4.45", default-features = false, features = ["clock", "serde", "std"] }
dirs = "=7.0.0"
log = "=0.4.34"
serde = { version = "=1.0.229", features = ["derive"] }
serde_json = "=1.0.154"
sqlx = { version = "=0.8.6", default-features = false, features = ["sqlite", "runtime-tokio", "chrono", "migrate"] }
tokio = { version = "=1.54.1", features = ["sync", "rt", "macros", "time"] }
uuid = { version = "=1.29.0", features = ["v4"] }
