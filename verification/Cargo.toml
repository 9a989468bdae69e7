[package]
name = "tagmux"
version = "0.1.0"
edition = "2021"
publish = false

[dependencies]
slab = "*"
serde = { version = "*", features = ["derive"] }
anyhow = "*"
tokio = { version = "*", features = ["full"] }
tower = { version = "*", features = ["full"] }
futures = "*"
futures-util = "*"
async-bincode = "*"
tokio-tower = "*"
