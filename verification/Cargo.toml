[package]
name = "iaqualink"
version = "0.1.0"
edition = "2021"
publish = false

[dependencies]
anyhow = "1"
aws-credential-types = "1"
aws-sigv4 = "1"
aws-types = "1"
chrono = { version = "0.4", features = ["serde"] }
log = "0.4"
reqwest = { version = "0.12", default-features = false, features = ["json", "rustls-tls"] }
rumqttc = { version = "0.24", features = ["websocket", "use-rustls"] }
serde = { version = "1", features = ["derive"] }
serde_json = "1"
serde_repr = "0.1"
tokio = { version = "1", features = ["macros", "rt-multi-thread"] }
