[package]
name = "weekly_log"
version = "0.1.0"
edition = "2021"
publish = false

[dependencies]
url = "2"
actix-web = { version = "4", default-features = false, features = ["macros"] }
chrono = { version = "0.4", default-features = false, features = ["clock", "std"] }
rusqlite = { version = "*", features = ["bundled"] }
serde = { version = "1", features = ["derive"] }
