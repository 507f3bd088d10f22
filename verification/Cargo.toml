[package]
name = "njord"
version = "0.1.0"
edition = "2021"
publish = false

[dependencies]
log = "0.4"
rusqlite = { version = "0.29", features = ["bundled"] }
