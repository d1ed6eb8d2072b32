[package]
name = "ogonek-gh"
version = "0.1.0"
edition = "2021"
publish = false

[dependencies]
anyhow = "=1.0.104"
dotenvy = "=0.15.7"
dptree = "=0.5.1"
octocrab = "=0.47.1"
takecell = "=0.1.1"
teloxide = { version = "=0.17.0", features = ["macros"] }
tokio = { version = "=1.54.1", features = ["macros", "rt-multi-thread"] }
tracing = "=0.1.44"
tracing-subscriber = { version = "=0.3.23", features = ["env-filter"] }
