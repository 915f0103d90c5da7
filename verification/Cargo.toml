[package]
name = "cigness"
version = "0.1.0"
edition = "2021"
publish = false

[dependencies]
serde = { version = "=1.0.229", features = ["derive"] }
serde_json = "=1.0.151"
chrono = { version = "=0.4.45", features = ["serde"] }
csv = "=1.4.0"
thiserror = "=2.0.21"
linfa = "=0.8.1"
linfa-trees = "=0.8.1"
ndarray = "=0.16.1"
