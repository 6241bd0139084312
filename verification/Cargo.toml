[package]
name = "tinyserver"
version = "0.1.0"
edition = "2021"
publish = false

[dependencies]
dotenvy = "*"
sqlx = { version = "*", default-features = false, features = ["runtime-tokio", "postgres"] }
tokio = { version = "*", features = ["rt-multi-thread", "macros", "net", "io-util"] }
