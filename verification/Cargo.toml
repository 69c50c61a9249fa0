[package]
name = "xlm"
version = "0.1.0"
edition = "2021"
publish = false

[dependencies]
anyhow = "1"
bytes = "1"
clap = { version = "4", features = ["derive"] }
dirs = "*"
flate2 = "1"
log = "0.4"
octocrab = "0.44"
reqwest = { version = "=0.12.28", default-features = false, features = ["rustls-tls"] }
simplelog = "0.12"
tar = "0.4"
tokio = { version = "1", features = ["macros", "process", "rt-multi-thread"] }
