[package]
name = "data_wizard"
version = "0.1.0"
edition = "2021"
publish = false

[dependencies]
serde_json = "=1.0.151"
chrono = "=0.4.45"
tokio = { version = "=1.53.2", features = ["rt-multi-thread"] }
async-openai = { version = "=0.42.1", features = ["chat-completion"] }
misanthropy = "=0.0.8"
