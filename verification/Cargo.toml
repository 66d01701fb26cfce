[package]
name = "static_server"
version = "0.1.0"
edition = "2021"
publish = false

[dependencies]
axum = "*"
tokio = { version = "*", features = ["macros", "rt-multi-thread", "signal", "net", "fs", "time"] }
tower = "*"
tower-http = { version = "*", features = ["cors", "compression-br", "compression-gzip"] }
