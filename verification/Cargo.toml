[package]
name = "user_service"
version = "0.1.0"
edition = "2021"
publish = false

[dependencies]
ammonia = "4"
argon2 = "0.5"
chrono = "0.4"
dotenv = "0.15"
rand_core = { version = "0.6", features = ["getrandom"] }
rocket = "0.5"
rocket_db_pools = { version = "0.2", features = ["sqlx_postgres"] }
sqlx = { version = "0.7", default-features = false, features = ["postgres", "uuid", "chrono", "macros"] }
uuid = { version = "1", features = ["v4"] }
