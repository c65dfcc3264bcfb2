[package]
name = "image-mcp"
version = "0.1.0"
edition = "2021"
publish = false

[dependencies]
async-openai = { version = "=0.43.0", features = ["image"] }
async-trait = "=0.1.92"
base64 = "=0.23.1"
clap = { version = "=4.6.7", features = ["derive", "env"] }
cuid2 = "=0.1.6"
mimalloc = "=0.1.52"
reqwest = { version = "=0.13.5", features = ["json", "multipart"] }
rust-mcp-axum = "=2.0.0"
rust-mcp-sdk = "=2.0.0"
serde = { version = "=1.0.229", features = ["derive"] }
serde_json = "=1.0.154"
thiserror = "=2.0.21"
tokio = { version = "=1.54.1", features = ["full"] }
tracing = "=0.1.44"
tracing-subscriber = { version = "=0.3.23", features = ["env-filter"] }
