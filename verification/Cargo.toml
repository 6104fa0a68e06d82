[package]
name = "soukousei"
version = "0.1.0"
edition = "2021"
publish = false

[dependencies]
serde = { version = "=1.0.229", features = ["derive"] }
toml = "=1.1.6"
miette = "=7.6.0"
thiserror = "=2.0.21"
syn = { version = "=2.0.119", features = ["full"] }
quote = "1"
