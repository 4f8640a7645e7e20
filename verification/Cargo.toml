[package]
name = "server_man"
version = "0.1.0"
edition = "2021"
publish = false

[dependencies]
config = "0.13"
lazy_static = "1.4"
public-ip = "0.2"
serde = { version = "1", features = ["derive"] }
serenity = { version = "0.11", default-features = false, features = ["builder", "client", "gateway", "http", "model", "rustls_backend"] }
tokio = { version = "1", features = ["macros", "rt-multi-thread"] }
