[package]
name = "skillset"
version = "0.1.0"
edition = "2021"
publish = false

[dependencies]
dirs = "*"
sha2 = "*"
chrono = "*"
git2 = { version = "*", default-features = false }
serde = { version = "*", features = ["derive"] }
serde_json = "*"
clap = { version = "*", features = ["derive"] }
tokio = { version = "*", features = ["macros", "rt-multi-thread", "fs"] }
