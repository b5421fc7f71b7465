[package]
name = "ocean_db"
version = "0.1.0"
edition = "2021"
publish = false

[dependencies]
serde = { version = "1", features = ["derive"] }
serde_json = "1"
sqlx = { version = "0.8", default-features = false, features = ["runtime-tokio", "sqlite", "json"] }

[dev-dependencies]
tokio = { version = "1", features = ["rt", "time"] }
