[package]
name = "assistant_core"
version = "0.1.0"
edition = "2021"
publish = false

[dependencies]
itertools = "*"
serde = { version = "1", features = ["derive"] }
futures = "0.3"
async-stream = "0.3"
ureq = { version = "2", default-features = false }
