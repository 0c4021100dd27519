[package]
name = "prefix_mapper"
version = "0.1.0"
edition = "2021"
publish = false

[dependencies]
anyhow = "1"
clap = { version = "4", features = ["derive"] }
config = "*"
regex = "1"
serde = { version = "1", features = ["derive"] }
tokio = { version = "1", features = ["rt", "macros", "fs", "rt-multi-thread"] }
walkdir = "2"
