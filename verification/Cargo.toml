[package]
name = "cargo_casper"
version = "0.1.0"
edition = "2021"
publish = false

[dependencies]
anyhow = "*"
casper-client = "*"
casper-execution-engine = "*"
casper-storage = "*"
casper-types = "*"
clap = "*"
directories = "*"
serde = { version = "*", features = ["derive"] }
serde_json = "*"
tokio = { version = "*", features = ["rt", "macros"] }
toml = "*"
