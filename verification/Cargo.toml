[package]
name = "auth_lib"
version = "0.1.0"
edition = "2021"
publish = false

[dependencies]
rust-argon2 = "1.0"
jsonwebtoken = "8"
serde_json = "1"
chrono = "0.4"
uuid = { version = "1", features = ["v4", "serde"] }
serde = { version = "1", features = ["derive"] }
actix-web = { version = "4", default-features = false, features = ["macros"] }
actix-cors = "0.6"
mongodb = { version = "2", default-features = false, features = ["tokio-sync"] }
bson = { version = "2", features = ["chrono-0_4", "uuid-1"] }
envy = "0.4"
