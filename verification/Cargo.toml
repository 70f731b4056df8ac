[package]
name = "ark_round"
version = "0.1.0"
edition = "2021"
publish = false

[dependencies]
bitcoin = "*"
base64 = "*"
ark-core = "*"
esplora-client = "*"
actix-web = "*"
anyhow = "*"
serde = { version = "*", features = ["derive"] }
tokio = { version = "*", features = ["rt-multi-thread", "macros"] }
toml = "*"
futures = "*"
rand = "*"
regex = "*"
uuid = { version = "*", features = ["v4"] }
tracing-subscriber = { version = "*", features = ["env-filter"] }
