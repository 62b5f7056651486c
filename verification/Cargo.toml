[package]
name = "bkdbupdate"
version = "0.1.0"
edition = "2021"
publish = false

[dependencies]
chrono = "0.4"
futures = "0.3"
iced = { version = "0.12", default-features = false }
iced_futures = "0.12"
rusqlite = { version = "0.31", features = ["bundled"] }
