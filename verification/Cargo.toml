[package]
name = "deploy_dispatcher"
version = "0.1.0"
edition = "2021"
publish = false

[dependencies]
anyhow = "1"
axum = { version = "0.7", features = ["macros", "multipart"] }
chrono = { version = "0.4", features = ["serde"] }
dotenv = "0.15"
envy = "0.4"
serde = { version = "1", features = ["derive"] }
sqlx = { version = "0.7", default-features = false, features = ["mysql", "runtime-tokio", "chrono"] }
thiserror = "1"
tokio = { version = "1", features = ["full"] }
