[package]
name = "bb8_rusqlite"
version = "0.1.0"
edition = "2021"
publish = false

[dependencies]
rusqlite = { version = "*", features = ["bundled"] }
tokio = { version = "*", features = ["rt-multi-thread"] }
bb8 = "*"
async-trait = "*"
thiserror = "*"

[dev-dependencies]
tempfile = "*"
