[package]
name = "ax_notes"
version = "0.1.0"
edition = "2021"
publish = false

[dependencies]
argon2 = { version = "=0.5.3", features = ["std"] }
jsonwebtoken = "=9.3.1"
chrono = { version = "=0.4.45", features = ["serde"] }
uuid = { version = "=1.29.1", features = ["serde", "v4"] }
serde = { version = "=1.0.229", features = ["derive"] }
serde_json = { version = "=1.0.154", features = ["preserve_order"] }
axum = "=0.7.9"
sqlx = { version = "=0.7.4", default-features = false, features = ["postgres", "runtime-tokio", "uuid", "chrono"] }
tokio = { version = "=1.54.1", features = ["macros", "rt-multi-thread", "net"] }
tower-http = { version = "=0.5.2", features = ["cors", "set-header"] }
tower_governor = "=0.4.3"
dotenvy = "=0.15.7"
