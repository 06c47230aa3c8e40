[package]
name = "iris_cli"
version = "0.1.0"
edition = "2021"
publish = false

[dependencies]
clap = { version = "4", features = ["derive"] }
dialoguer = "0.11"
indicatif = "0.17"
snafu = "*"
tracing = "*"
tracing-subscriber = { version = "*", features = ["env-filter"] }
