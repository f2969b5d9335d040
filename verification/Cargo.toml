[package]
name = "mew"
version = "0.1.0"
edition = "2021"
publish = false

[dependencies]
chrono = "0.4"
serde = "1"
serde_json = "1"
solana-keypair = "*"
tokio = { version = "1", features = ["macros", "rt-multi-thread", "time"] }
