[package]
name = "users_api"
version = "0.1.0"
edition = "2021"
publish = false

[dependencies]
actix-web = { version = "4", default-features = false, features = ["macros"] }
dotenvy = "0.15"
env_logger = "0.11"
log = "0.4"
serde = { version = "1", features = ["derive"] }
serde_json = "1"
tiberius = "0.12"
tokio = { version = "1", features = ["macros", "net", "rt-multi-thread", "sync"] }
tokio-util = { version = "0.7", features = ["compat"] }
