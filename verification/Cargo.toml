[package]
name = "run_config"
version = "0.1.0"
edition = "2021"
publish = false

[dependencies]
envy = "0.4"
serde = { version = "1.0", features = ["derive"] }
