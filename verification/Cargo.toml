[package]
name = "pmetal_lora"
version = "0.1.0"
edition = "2021"
publish = false

[dependencies]
mlx-rs = "*"
serde = { version = "1", features = ["derive"] }
serde_json = "1"
