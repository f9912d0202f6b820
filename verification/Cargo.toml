[package]
name = "prompt_server"
version = "0.1.0"
edition = "2021"
publish = false

[dependencies]
bcrypt = "0.15"
hmac = "0.12"
sha2 = "0.10"
jwt = "0.16"
chrono = "0.4"
serde = { version = "1", features = ["derive"] }
serde_json = "1"
rocket = { version = "0.5", features = ["json"] }
rocket_sync_db_pools = { version = "0.1", features = ["diesel_postgres_pool"] }
diesel = { version = "2", features = ["postgres", "serde_json"] }
pyo3 = "0.21"
