[package]
name = "vor_router"
version = "0.1.0"
edition = "2021"
publish = false

[dependencies]
rosc = "*"
serde = { version = "1", features = ["derive"] }
tokio = { version = "1", features = ["rt-multi-thread", "net", "sync"] }
