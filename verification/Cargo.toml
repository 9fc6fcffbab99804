[package]
name = "op_challenger"
version = "0.1.0"
edition = "2021"
publish = false

[dependencies]
anyhow = "1"
clap = { version = "4", default-features = false, features = ["std", "derive", "env", "help", "usage", "error-context"] }
ethers-core = "2"
ethers-providers = { version = "2", features = ["ws", "rustls"] }
ethers-signers = "2"
lazy_static = "1"
serde = { version = "1", features = ["derive"] }
serde_json = "1"
tokio = { version = "1", features = ["macros", "rt-multi-thread", "sync", "time"] }
tracing = "0.1"
