[package]
name = "todo_app"
version = "0.1.0"
edition = "2021"
publish = false

[dependencies]
r2d2 = "=0.8.10"
r2d2_sqlite = "=0.35.0"
rusqlite = { version = "=0.40.2", features = ["fallible_uint"] }
thiserror = "=2.0.21"

[dev-dependencies]
uuid = { version = "=1.29.0", features = ["v4"] }
