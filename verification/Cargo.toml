[package]
name = "tt"
version = "0.1.0"
edition = "2021"
publish = false

[dependencies]
ansi_term = "0.12"
anyhow = "1"
clap = { version = "4", features = ["derive"] }
dirs = "5"
inquire = "0.7"
reqwest = { version = "0.12", features = ["json"] }
serde_json = "1"
sysinfo = { version = "0.29", default-features = false }
tokio = { version = "1", features = ["macros", "rt-multi-thread"] }
tracing = "0.1"
tracing-subscriber = "0.3"
