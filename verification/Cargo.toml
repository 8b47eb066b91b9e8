[package]
name = "dblayer"
version = "0.1.0"
edition = "2021"
publish = false

[dependencies]
sha2 = "=0.10.9"
sqlx = { version = "=0.9.0", default-features = false, features = ["runtime-tokio", "sqlite", "postgres", "chrono"] }
tokio = { version = "=1.53.2", features = ["rt-multi-thread", "macros", "time"] }
chrono = "=0.4.45"
jsonwebtoken = "=11.1.0"
serde = { version = "=1.0.229", features = ["derive"] }
cursive = "=0.21.1"
enum-iterator = "*"
futures = "*"
