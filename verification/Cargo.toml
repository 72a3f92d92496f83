[package]
name = "chat_runtime"
version = "0.1.0"
edition = "2021"
publish = false

[dependencies]
async-openai = { version = "=0.42.1", default-features = false, features = ["chat-completion-types"] }
async-trait = "=0.1.92"
futures = "=0.3.34"
secrecy = "=0.10.3"
serde = "*"
serde_json = "=1.0.151"
tracing = "=0.1.44"
