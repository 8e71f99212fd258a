[package]
name = "blrs"
version = "0.1.0"
edition = "2021"
publish = false

[dependencies]
argon2 = "=0.6.0"
chrono = { version = "=0.4.45", default-features = false, features = ["clock", "std"] }
uuid = { version = "=1.29.0", features = ["v7"] }
lettre = { version = "=0.11.23", default-features = false, features = ["builder", "smtp-transport", "tokio1", "tokio1-rustls-tls"] }
jsonwebtoken = { version = "=11.1.0", default-features = false, features = ["rust_crypto"] }
serde = { version = "=1.0.229", features = ["derive"] }
serde_json = { version = "=1.0.154", features = ["preserve_order"] }
axum = "=0.8.9"
tokio = { version = "=1.54.1", features = ["macros", "rt-multi-thread", "time"] }
tower = "=0.5.3"
tower-http = { version = "=0.7.1", features = ["cors"] }
tracing = "=0.1.44"
tracing-subscriber = { version = "=0.3.23", features = ["env-filter"] }
redis = { version = "=1.8.1", features = ["tokio-comp", "connection-manager"] }
sqlx = { version = "=0.9.0", default-features = false, features = ["runtime-tokio", "postgres", "migrate", "macros"] }
reqwest = { version = "=0.13.5", default-features = false, features = ["json", "native-tls"] }
vercel_blob = "=0.1.0"
vercel_runtime = { version = "=2.4.1", features = ["axum"] }
