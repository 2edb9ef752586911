[package]
name = "maya_core"
version = "0.1.0"
edition = "2021"
publish = false

[dependencies]
jsonwebtoken = { version = "=11.1.0", features = ["rust_crypto"] }
serde_json = "=1.0.151"
validator = "=0.21.0"
serde = { version = "=1.0.229", features = ["derive"] }
actix-web = "=4.15.0"
actix-cors = "=0.7.2"
chrono = "=0.4.45"
futures-util = "=0.3.34"
sqlx = { version = "=0.9.0", default-features = false, features = ["postgres", "runtime-tokio"] }
