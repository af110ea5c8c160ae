[package]
name = "secret_agent"
version = "0.1.0"
edition = "2021"
publish = false

[dependencies]
async-trait = "0.1"
clap = { version = "4", features = ["derive"] }
dotenv = "0.15"
rig-core = "0.11"
serde = { version = "1", features = ["derive"] }
serde_json = "=1.0.154"
thiserror = "1"
tokio = { version = "1", features = ["macros", "rt-multi-thread", "fs", "time"] }
