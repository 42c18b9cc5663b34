[package]
name = "acoustic"
version = "0.1.0"
edition = "2021"
publish = false

[dependencies]
anyhow = "1"
reqwest = "0.12"
serde_json = "1"
serenity = "0.12"
songbird = { version = "0.5", features = ["builtin-queue"] }
tokio = { version = "1", features = ["macros", "rt-multi-thread", "process", "time"] }
tracing = "0.1"
tracing-subscriber = { version = "0.3", features = ["env-filter"] }
