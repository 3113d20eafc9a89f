[package]
name = "oc_user"
version = "0.1.0"
edition = "2021"
publish = false

[dependencies]
serde = { version = "1", features = ["derive"] }
serde_json = "1"
tokio = { version = "1", features = ["rt-multi-thread", "macros", "sync", "time"] }
tokio-tungstenite = "0.26"
futures-util = { version = "0.3", features = ["sink"] }
pyo3 = "0.23"
