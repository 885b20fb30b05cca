[package]
name = "quickpay"
version = "0.1.0"
edition = "2021"
publish = false

[dependencies]
anyhow = "=1.0.104"
base64 = "=0.13.1"
clap = { version = "=4.6.7", features = ["derive"] }
config = "=0.13.4"
dialoguer = "=0.10.4"
dirs = "=4.0.0"
image = "=0.24.9"
indicatif = "=0.17.11"
regex = "=1.13.1"
serde = { version = "=1.0.229", features = ["derive"] }
tokio = { version = "=1.54.1", features = ["macros", "rt-multi-thread"] }
viuer = "=0.6.2"
