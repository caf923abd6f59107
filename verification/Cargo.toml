[package]
name = "zero2prod"
version = "0.1.0"
edition = "2021"
publish = false

[dependencies]
actix-web = { version = "=4.18.1", default-features = false, features = ["macros", "cookies"] }
actix-web-flash-messages = { version = "=0.5.1", features = ["cookies"] }
anyhow = "=1.0.104"
chrono = { version = "=0.4.45", default-features = false, features = ["clock"] }
rand = "=0.10.3"
reqwest = { version = "=0.13.5", default-features = false, features = ["form"] }
secrecy = "=0.10.3"
serde = { version = "=1.0.229", features = ["derive"] }
sqlx = { version = "=0.9.0", default-features = false, features = ["runtime-tokio", "postgres", "uuid", "chrono", "macros"] }
tera = { version = "=1.20.1", default-features = false }
thiserror = "=2.0.21"
tracing = "=0.1.44"
tracing-actix-web = "=0.7.25"
uuid = { version = "=1.29.0", features = ["v4"] }
