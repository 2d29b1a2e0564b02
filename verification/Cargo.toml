[package]
name = "sequoia"
version = "0.1.0"
edition = "2021"
publish = false

[dependencies]
chrono = "*"
cuid2 = "*"
email_address = "*"
dotenvy = "*"
lettre = "*"
rusqlite = { version = "*", features = ["bundled"] }
tokio = { version = "*", features = ["rt-multi-thread", "macros", "sync", "time"] }
