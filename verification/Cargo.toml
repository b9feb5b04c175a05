[package]
name = "api_git"
version = "0.1.0"
edition = "2021"
publish = false

[dependencies]
clap = "2"
colored = "2"
clipboard = "0.5"
git2 = { version = "*", default-features = false }
