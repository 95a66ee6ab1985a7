[package]
name = "focusbot"
version = "0.1.0"
edition = "2021"
publish = false

[dependencies]
dashmap = "5"
parse_duration = "2"
serenity = { version = "0.11", features = ["framework", "standard_framework"] }
tokio = { version = "1", features = ["macros", "rt-multi-thread", "signal"] }
dotenv = "0.15"
tracing = "0.1"
tracing-subscriber = "0.3"
