[package]
name = "starboard"
version = "0.1.0"
edition = "2021"
publish = false

[dependencies]
serenity = "=0.12.5"
poise = "=0.6.2"
sqlx = { version = "=0.8.6", features = ["sqlite", "runtime-tokio", "chrono"] }
tokio = { version = "=1.53.2", features = ["macros", "rt-multi-thread"] }
chrono = "=0.4.45"
rand = "=0.9.5"
serde = { version = "=1.0.229", features = ["derive"] }
