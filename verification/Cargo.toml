[package]
name = "robot9000"
version = "0.1.0"
edition = "2021"
publish = false

[dependencies]
sled = "=0.34.7"
xxhash-rust = { version = "=0.8.19", features = ["xxh3"] }
size_format = "=1.0.2"
teloxide = "*"
takecell = "=0.1.1"
tokio = { version = "1", features = ["macros", "rt-multi-thread"] }
serde = { version = "1", features = ["derive"] }
serde_json = "1"
envy = "*"
color-eyre = "*"
tracing = "*"
tracing-futures = "*"
tracing-subscriber = { version = "*", features = ["env-filter"] }
