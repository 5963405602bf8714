[package]
name = "identity_access"
version = "0.1.0"
edition = "2021"
publish = false

[dependencies]
jsonwebtoken = "9"
md5 = "0.7"
uuid = { version = "1", features = ["v4"] }
chrono = { version = "0.4", default-features = false, features = ["clock"] }
serde = { version = "1", features = ["derive"] }
serde_json = "1"
actix-web = { version = "4", default-features = false, features = ["macros", "cookies"] }
lettre = { version = "0.10", default-features = false, features = ["builder", "smtp-transport", "tokio1", "tokio1-rustls-tls"] }
sqlx = { version = "0.7", default-features = false, features = ["postgres", "runtime-tokio"] }
validator = { version = "0.16", features = ["derive"] }
async-trait = "0.1"
