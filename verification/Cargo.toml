[package]
name = "ecu_diag"
version = "0.1.0"
edition = "2021"
publish = false

[dependencies]
automotive_diag = "*"
chrono = "*"
clap = { version = "*", features = ["derive"] }
serde = { version = "*", features = ["derive"] }
serde_json = "*"
tokio = { version = "*", features = ["rt", "net", "sync", "io-util", "macros", "time"] }
