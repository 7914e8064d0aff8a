[package]
name = "tiny_weather"
version = "0.1.0"
edition = "2021"
publish = false

[dependencies]
reqwest = { version = "*", default-features = false }
serde = { version = "*", features = ["derive"] }
clap = { version = "*", features = ["derive"] }
thiserror = "*"
tokio = { version = "*", features = ["macros", "rt-multi-thread"] }
tracing = "*"
tracing-subscriber = "*"
