[package]
name = "debate_cards"
version = "0.1.0"
edition = "2021"
publish = false

[dependencies]
uuid = { version = "*", features = ["v4"] }
chrono = "*"
serde = { version = "*", features = ["derive"] }
serde_json = "*"
log = "*"
actix-web = "*"
qdrant-client = "*"
openai_dive = "*"
