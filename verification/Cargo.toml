[package]
name = "repo_mirror"
version = "0.1.0"
edition = "2021"
publish = false

[dependencies]
anyhow = "1"
reqwest = "0.12"
tl = "0.7"
tokio = { version = "1", features = ["fs", "macros", "rt-multi-thread"] }
url = "2"
