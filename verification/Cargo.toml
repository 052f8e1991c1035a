[package]
name = "assistant_mcp"
version = "0.1.0"
edition = "2021"
publish = false

[dependencies]
serde_json = "*"
reqwest = "*"
tokio = { version = "*", features = ["macros", "rt-multi-thread", "io-std", "io-util"] }
mcp-server = "*"
mcp-spec = "*"
tracing = "*"
tracing-subscriber = { version = "*", features = ["env-filter"] }
is-terminal = "*"
thiserror = "*"
