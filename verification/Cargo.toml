[package]
name = "neoengramd"
version = "0.1.0"
edition = "2021"
publish = false

[dependencies]
async-trait = "0.1"
fs2 = "0.4"
serde = { version = "1", features = ["derive"] }
serde_json = "1"
sqlx = { version = "0.8", default-features = false, features = ["runtime-tokio", "sqlite"] }
