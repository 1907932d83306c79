[package]
name = "lapce_core"
version = "0.1.0"
edition = "2021"
publish = false

[dependencies]
anyhow = "*"
directories = "*"
hashbrown = "*"
serde = { version = "*", features = ["derive"] }
toml = "*"
