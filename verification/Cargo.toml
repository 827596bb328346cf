[package]
name = "zapo"
version = "0.1.0"
edition = "2021"
publish = false

[dependencies]
actix-web = { version = "4", default-features = false, features = ["macros"] }
argon2 = { version = "0.5", features = ["std"] }
base64 = "0.22"
chrono = "0.4"
dotenvy = "0.15"
num_cpus = "1"
reqwest = { version = "0.12", default-features = false, features = ["json", "rustls-tls"] }
serde = { version = "1", features = ["derive"] }
serde_json = "1"
sqlx = { version = "0.8", default-features = false, features = ["mysql", "runtime-tokio", "chrono"] }
tokio = { version = "1", features = ["macros", "rt-multi-thread", "time"] }
