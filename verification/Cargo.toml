[package]
name = "repo_report"
version = "0.1.0"
edition = "2021"
publish = false

[dependencies]
serde = { version = "1", features = ["derive"] }
serde_json = "1"
reqwest = { version = "*", default-features = false }
tokio = { version = "1", features = ["macros", "rt"] }
