[package]
name = "price_notifications"
version = "0.1.0"
edition = "2021"
publish = false

[dependencies]
anyhow = "*"
coingecko = "*"
colored = "*"
dialoguer = "*"
flexi_logger = "*"
log = "*"
serde = { version = "*", features = ["derive"] }
serde_json = "*"
tokio = { version = "*", features = ["macros", "rt-multi-thread", "time"] }
twilio = "*"
