[package]
name = "bancho_service"
version = "0.1.0"
edition = "2021"
publish = false

[dependencies]
uuid = { version = "1", features = ["v4", "serde"] }
bcrypt = "0.17"
hashbrown = "0.15"
anyhow = "1"
chrono = { version = "0.4", features = ["serde"] }
redis = { version = "=0.32.7", features = ["tokio-comp", "script", "hashbrown"] }
sqlx = { version = "=0.8.6", default-features = false, features = ["mysql", "runtime-tokio", "chrono", "rust_decimal", "derive"] }
rust_decimal = "1"
serde = { version = "1", features = ["derive"] }
serde_json = "1"
tokio = { version = "1", features = ["rt-multi-thread", "macros"] }
tracing = "0.1"
dotenv = "0.15"
const-str = "*"
