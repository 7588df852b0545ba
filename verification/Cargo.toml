[package]
name = "tramp-rpc"
version = "0.1.0"
edition = "2021"
publish = false

[dependencies]
rmpv = { version = "1", features = ["with-serde"] }
serde = { version = "1", features = ["derive"] }
serde_bytes = "0.11"
tokio = { version = "1", features = ["fs", "rt"] }
libc = "0.2"
