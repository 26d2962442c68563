[package]
name = "swiftconcur_parser"
version = "0.1.0"
edition = "2021"
publish = false

[dependencies]
serde_json = "=1.0.151"
chrono = { version = "=0.4.45", features = ["serde"] }
uuid = { version = "=1.27.0", features = ["v4"] }
serde = { version = "=1.0.229", features = ["derive"] }
clap = { version = "=4.6.7", features = ["derive"] }
thiserror = "=2.0.21"
tracing-subscriber = { version = "=0.3.23", features = ["env-filter"] }
