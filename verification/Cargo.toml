[package]
name = "kgc_core"
version = "0.1.0"
edition = "2021"
publish = false

[dependencies]
anyhow = "1"
axum = "0.6"
chrono = "0.4"
clap = { version = "4", features = ["derive"] }
ical = { version = "*", features = ["generator"] }
reqwest = { version = "0.11", default-features = false, features = ["rustls-tls"] }
scraper = "*"
serde = { version = "1", features = ["derive"] }
tokio = { version = "1", features = ["macros", "rt-multi-thread"] }
