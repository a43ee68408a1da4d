[package]
name = "perroute_backoffice"
version = "0.1.0"
edition = "2021"
publish = false

[dependencies]
chrono = { version = "=0.4.45", default-features = false, features = ["alloc", "std"] }
uuid = "=1.29.0"
actix-web = { version = "=4.18.1", default-features = false, features = ["macros"] }
validator = "=0.16.1"
serde = { version = "=1.0.229", features = ["derive"] }
serde_json = "=1.0.154"
tracing = "=0.1.44"
url = "=2.5.8"
