[package]
name = "analyticsbase"
version = "0.1.0"
edition = "2021"
publish = false

[dependencies]
rusqlite = "*"
r2d2 = "0.8"
r2d2_sqlite = "*"
warp = { version = "0.3", default-features = false }
tokio = { version = "1", features = ["macros", "rt-multi-thread"] }
bytes = "1"
http = "0.2"
