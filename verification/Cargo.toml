[package]
name = "saorsa_quic_test"
version = "0.1.0"
edition = "2021"
publish = false

[dependencies]
sha2 = "=0.10.9"
uuid = { version = "=1.29.0", features = ["v4"] }
chrono = { version = "=0.4.45", default-features = false, features = ["clock", "std"] }
hex = "=0.4.3"
base64 = "=0.22.1"
serde = { version = "=1.0.229", features = ["derive"] }
serde_json = "=1.0.154"
four-word-networking = "=2.7.0"
hostname = "*"
