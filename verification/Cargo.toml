[package]
name = "upload_info_store"
version = "0.1.0"
edition = "2021"
publish = false

[dependencies]
chrono = "=0.4.45"
mobc = "=0.9.0"
serde_json = "=1.0.154"
tokio-postgres = { version = "=0.7.18", features = ["with-chrono-0_4", "with-serde_json-1"] }

[dev-dependencies]
tokio = { version = "=1.54.1", features = ["rt", "io-util"] }
