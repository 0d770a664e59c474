[package]
name = "burncloud_database"
version = "0.1.0"
edition = "2021"
publish = false

[dependencies]
sqlx = { version = "=0.9.0", default-features = false, features = ["sqlite", "runtime-tokio"] }
dirs = "=7.0.0"
serde = { version = "=1.0.229", features = ["derive"] }
serde_json = "=1.0.151"
chrono = { version = "=0.4.45", features = ["serde"] }
uuid = { version = "=1.27.0", features = ["v4", "serde"] }
async-trait = "=0.1.92"

[dev-dependencies]
tokio = { version = "=1.53.2", features = ["rt", "fs"] }
