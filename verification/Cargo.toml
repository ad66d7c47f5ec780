[package]
name = "speech_to_text"
version = "0.1.0"
edition = "2021"
publish = false

[dependencies]
num_cpus = "1"
uuid = { version = "1", features = ["v4"] }
chrono = "0.4"
serde = { version = "1", features = ["derive"] }
serde_json = "1"
reqwest = { version = "0.12", default-features = false, features = ["json", "rustls-tls"] }
