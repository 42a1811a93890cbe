[package]
name = "auction_backend"
version = "0.1.0"
edition = "2021"
publish = false

[dependencies]
ethers = "2"
eyre = "0.6"
tokio = { version = "1", features = ["rt-multi-thread", "macros"] }
