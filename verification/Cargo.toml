[package]
name = "dbson"
version = "0.1.0"
edition = "2021"
publish = false

[dependencies]
bson = "2"
serde = { version = "1", features = ["derive"] }
rusqlite = { version = "0.30", features = ["bundled"] }
sqlx = { version = "0.7", default-features = false, features = ["sqlite"] }
