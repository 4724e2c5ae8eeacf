[package]
name = "cktool"
version = "0.1.0"
edition = "2021"
publish = false

[dependencies]
url = "2"
json = "0.12"
size = "*"
anyhow = "1"
chrono = "0.4"
clap = { version = "4", features = ["derive"] }
clap_complete = "4"
colored = "*"
futures-util = "0.3"
indicatif = "*"
reqwest = { version = "0.12", features = ["stream"] }
tokio = { version = "1", features = ["full"] }
