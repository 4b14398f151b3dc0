[package]
name = "roger"
version = "0.1.0"
edition = "2021"
publish = false

[dependencies]
argon2 = "*"
axum = { version = "*", features = ["ws"] }
futures = "*"
http = "*"
jsonwebtoken = "*"
log = "*"
log4rs = "*"
rand = "*"
serde = { version = "*", features = ["derive"] }
serde_json = "*"
sqlx = { version = "*", features = ["postgres", "runtime-tokio"] }
tokio = { version = "*", features = ["sync", "rt-multi-thread", "macros", "net"] }
tower-http = { version = "*", features = ["cors"] }
uuid = { version = "*", features = ["v4"] }
validator = { version = "*", features = ["derive"] }
