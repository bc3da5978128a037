[package]
name = "simple_price_db"
version = "0.1.0"
edition = "2021"
publish = false

[dependencies]
bincode = "1"
cosmwasm-std = "1.5"
cosmwasm-storage = "1.5"
serde = { version = "1", features = ["derive"] }
schemars = "0.8"
