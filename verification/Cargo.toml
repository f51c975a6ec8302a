[package]
name = "livelog"
version = "0.1.0"
edition = "2021"
publish = false

[dependencies]
chrono = { version = "0.4", features = ["serde"] }
dirs = "5"
dotenv = "0.15"
include_dir = { version = "0.7", features = ["glob"] }
lazy_static = "1"
log = "0.4"
rocket = { version = "0.5", features = ["json"] }
rocket_db_pools = { version = "0.1", features = ["sqlx_sqlite"] }
serde = { version = "1", features = ["derive"] }
serde_json = "1"
sqlx = { version = "0.7", features = ["sqlite", "runtime-tokio", "chrono", "uuid", "json"] }
tera = "1"
uuid = { version = "1", features = ["serde"] }
