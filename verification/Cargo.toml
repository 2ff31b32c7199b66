[package]
name = "nb"
version = "0.1.0"
edition = "2021"
publish = false

[dependencies]
anyhow = "=1.0.104"
clap = { version = "=4.6.7", features = ["string"] }
clap_complete = "=4.6.11"
confy = "=2.0.0"
dirs = "=7.0.0"
serde = { version = "=1.0.229", features = ["derive"] }
thiserror = "=2.0.21"
