[package]
name = "block_inspector"
version = "0.1.0"
edition = "2021"
publish = false

[dependencies]
web3 = { version = "*", default-features = false, features = ["ws-tokio"] }
tokio = { version = "*", features = ["macros", "rt-multi-thread"] }
serde_json = "*"
dotenv = "*"
chrono = "*"
