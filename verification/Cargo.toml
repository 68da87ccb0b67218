[package]
name = "git_structured_log"
version = "0.1.0"
edition = "2021"
publish = false

[dependencies]
chrono = "*"
git2 = "*"

[dev-dependencies]
serde_json = "*"
