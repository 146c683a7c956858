[package]
name = "grohuh"
version = "0.1.0"
edition = "2021"
publish = false

[dependencies]
anyhow = "1"
rumqttc = { version = "0.24", default-features = false }
serde = { version = "1", features = ["derive"] }
serde_json = "1"
surrealdb = { version = "1", default-features = false, features = ["protocol-ws"] }
tokio = { version = "1", features = ["macros", "rt-multi-thread", "time"] }
ulid = "1"
