[package]
name = "flowflow"
version = "0.1.0"
edition = "2021"
publish = false

[dependencies]
chrono = { version = "0.4", default-features = false, features = ["clock", "std"] }
serde_json = "1"
dioxus = { version = "0.7", default-features = false, features = ["signals", "hooks", "macro"] }
futures-timer = "3"
tokio = { version = "1", default-features = false, features = ["time"] }
