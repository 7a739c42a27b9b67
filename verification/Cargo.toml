[package]
name = "relay_broker"
version = "0.1.0"
edition = "2021"
publish = false

[dependencies]
base64 = "0.22"
chrono = "0.4"
dashmap = "5"
futures = "0.3"
futures-channel = "0.3"
futures-concurrency = "7"
lazy_static = "1"
multimap = "*"
nanoid = "0.4"
rocket = { version = "0.5", features = ["json"] }
rocket_db_pools = { version = "*", features = ["sqlx_sqlite"] }
rocket_ws = "*"
serde = { version = "1", features = ["derive"] }
serde_ini = "*"
serde_json = "1"
uuid = "1"
