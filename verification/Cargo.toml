[package]
name = "gaf"
version = "0.1.0"
edition = "2021"
publish = false

[dependencies]
regex = "1"
serenity = { version = "0.10", default-features = false, features = ["builder", "cache", "client", "framework", "gateway", "model", "http", "standard_framework", "utils", "rustls_backend", "collector"] }
sqlx = { version = "0.5", default-features = false, features = ["runtime-tokio-rustls", "postgres"] }
tokio = { version = "1", features = ["macros", "rt-multi-thread"] }
dotenv = "0.15"
futures = "0.3"
lazy_static = "1"
