[package]
name = "unai"
version = "0.1.0"
edition = "2021"
publish = false

[dependencies]
async-stream = "0.3"
async-trait = "0.1"
base64 = "0.22"
futures = "0.3"
itertools = "*"
nonempty = { version = "*", features = ["serialize"] }
reqwest = { version = "0.12", default-features = false, features = ["json", "stream"] }
rmcp = { version = "*", features = ["client"] }
serde = { version = "1", features = ["derive"] }
serde_json = "1"
serde_with = "3"
thiserror = "*"
tracing = "0.1"
uuid = { version = "1", features = ["v4"] }
