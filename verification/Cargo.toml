[package]
name = "taurifest"
version = "0.1.0"
edition = "2021"
publish = false

[dependencies]
rhai = { version = "*", features = ["serde"] }
serde_json = "*"
serde = { version = "*", features = ["derive"] }
mustache = "*"
scraper = "*"
rusqlite = { version = "*", features = ["bundled"] }
r2d2 = "*"
r2d2_sqlite = "*"
thiserror = "*"
