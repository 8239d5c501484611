[package]
name = "clean_dev_cycle"
version = "0.1.0"
edition = "2021"
publish = false

[dependencies]
git-conventional = "*"
semver = "1"
next_version = "*"
serde = { version = "1", features = ["derive"] }
serde_json = "1"
toml = "*"
tempfile = "3"
ctrlc = "3"
