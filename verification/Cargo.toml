[package]
name = "migration_engine"
version = "0.1.0"
edition = "2021"
publish = false

[dependencies]
chrono = "=0.4.45"
regex = "=1.13.1"
serde = { version = "=1.0.229", features = ["derive"] }
serde_json = "=1.0.154"
jsonrpc-core = "=18.0.0"
barrel = { version = "=0.7.0", features = ["sqlite3", "pg", "mysql"] }
