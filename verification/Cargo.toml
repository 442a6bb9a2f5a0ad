[package]
name = "diceroll"
version = "0.1.0"
edition = "2021"
publish = false

[dependencies]
lazy_static = "1"
rand = "0.8"
regex = "1"
serenity = { version = "0.11", default-features = false, features = ["client", "gateway", "model", "http", "rustls_backend"] }
tokio = { version = "1", features = ["macros", "rt-multi-thread"] }
