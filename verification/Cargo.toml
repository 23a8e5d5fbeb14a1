[package]
name = "herding_cats_rust"
version = "0.1.0"
edition = "2021"
publish = false

[dependencies]
uuid = { version = "1", features = ["v4"] }
chrono = "0.4"
sha2 = "0.10"
rand = "0.8"
url = "2"
serde = { version = "1", features = ["derive"] }
serde_json = "1"
thiserror = "1"
anyhow = "1"
tokio = { version = "1", features = ["rt-multi-thread", "macros", "sync", "time"] }
sqlx = { version = "0.7", default-features = false, features = ["sqlite", "runtime-tokio"] }
fontdb = "0.16"
zip = { version = "0.6", default-features = false, features = ["deflate"] }
once_cell = "1"
log = "0.4"
env_logger = { version = "0.10", default-features = false }
