[package]
name = "pglance"
version = "0.1.0"
edition = "2021"
publish = false

[dependencies]
arrow = { version = "=60.0.0", default-features = false }
base64 = "=0.22.1"
chrono = { version = "=0.4.45", default-features = false, features = ["std"] }
futures = "=0.3.34"
pgrx = "=0.18.1"
serde_json = "=1.0.154"
tokio = { version = "=1.54.1", features = ["rt-multi-thread"] }

[dev-dependencies]
half = "=2.7.1"
