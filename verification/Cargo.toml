[package]
name = "goosefs_client"
version = "0.1.0"
edition = "2021"
publish = false

[dependencies]
async-trait = "0.1"
bytes = "1"
dashmap = "6"
libc = "0.2"
lru = { version = "*", default-features = false }
pyo3 = { version = "*", features = ["abi3"] }
serde = { version = "1", features = ["derive"] }
tokio = { version = "1", features = ["sync"] }
tracing = "0.1"
