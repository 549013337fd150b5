[package]
name = "authpost"
version = "0.1.0"
edition = "2021"
publish = false

[dependencies]
actix-web = "=4.15.0"
bcrypt = "=0.19.3"
chrono = "=0.4.45"
derive_more = { version = "=2.1.1", features = ["display"] }
dotenv = "=0.15.0"
env_logger = "=0.11.11"
jsonwebtoken = { version = "=11.1.0", features = ["rust_crypto"] }
log = "=0.4.34"
rusqlite = { version = "=0.40.2", features = ["bundled"] }
serde = { version = "=1.0.229", features = ["derive"] }
serde_json = "=1.0.151"
uuid = { version = "=1.27.0", features = ["v4"] }
