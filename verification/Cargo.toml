[package]
name = "wbr_migrations"
version = "0.1.0"
edition = "2021"
publish = false

[dependencies]
sqlx = { version = "=0.9.0", default-features = false, features = ["sqlite", "runtime-tokio", "migrate"] }
