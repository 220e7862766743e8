[package]
name = "deploy_pipeline"
version = "0.1.0"
edition = "2021"
publish = false

[dependencies]
clap = { version = "=4.6.7", features = ["derive"] }
serde = "=1.0.229"
serde_derive = "=1.0.229"
toml = "=0.8.23"
