[package]
name = "knife"
version = "0.1.0"
edition = "2021"
publish = false

[dependencies]
open = "5"
ratatui = "0.29"
reqwest = "0.12"
serde_json = "1"
tokio = { version = "1", features = ["macros", "rt-multi-thread"] }
