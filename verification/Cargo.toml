[package]
name = "tentacli"
version = "0.1.0"
edition = "2021"
publish = false

[dependencies]
byteorder = "1"
anyhow = "1"
async-broadcast = "0.7"
async-trait = "0.1"
cfg-if = "1"
colored = "2"
futures = "0.3"
serde = { version = "1", features = ["derive"] }
serde_yaml = "0.9"
tokio = { version = "1", features = ["full"] }
