[package]
name = "easyproject_mcp_server"
version = "1.0.0"
edition = "2021"
publish = false

[dependencies]
url = "*"
serde = { version = "*", features = ["derive"] }
serde_json = "*"
chrono = "*"
tokio = { version = "*", features = ["macros", "rt-multi-thread", "io-std", "io-util", "time", "sync"] }
reqwest = { version = "*", default-features = false, features = ["json"] }
config = "*"
anyhow = "*"
thiserror = "*"
tracing = "*"
tracing-subscriber = { version = "*", features = ["fmt"] }
async-trait = "*"
