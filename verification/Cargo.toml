[package]
name = "nixbitcoin_config"
version = "0.1.0"
edition = "2021"
publish = false

[dependencies]
alejandra = "*"
serde = { version = "1", features = ["derive"] }

[dev-dependencies]
garde = "*"
