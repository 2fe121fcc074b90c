[package]
name = "crate_git_revision"
version = "0.1.0"
edition = "2021"
publish = false

[dependencies]
serde_json = "*"
