[package]
name = "umbrella"
version = "0.1.0"
edition = "2021"
publish = false

[dependencies]
serde_json = "=1.0.151"
reqwest = { version = "=0.13.5", default-features = false, features = ["blocking", "query"] }
clap = { version = "=4.6.7", features = ["derive", "env"] }
anyhow = "=1.0.104"

[dev-dependencies]
url = "=2.5.8"
