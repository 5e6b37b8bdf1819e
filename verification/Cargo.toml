[package]
name = "mongoc_compat"
version = "0.1.0"
edition = "2021"
publish = false

[dependencies]
mongodb = { version = "=2.8.2", features = ["tokio-sync"] }
