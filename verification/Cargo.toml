[package]
name = "anchor_basset_reward"
version = "0.1.0"
edition = "2021"
publish = false

[dependencies]
cosmwasm-std = "=0.10.1"
serde = { version = "1", features = ["derive"] }
terra-cosmwasm = "=1.2.4"
