[package]
name = "text_translator_rust"
version = "0.1.0"
edition = "2021"
publish = false

[dependencies]
isolang = "=2.4.0"
axum = "=0.8.9"
tokio = { version = "=1.53.2", features = ["rt-multi-thread", "macros"] }
serde = { version = "=1.0.229", features = ["derive"] }
serde_json = "=1.0.151"
async-openai = { version = "=0.42.1", features = ["chat-completion"] }
reqwest = "=0.13.5"
anyhow = "=1.0.104"
