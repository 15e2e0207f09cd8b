[package]
name = "inori"
version = "0.1.0"
edition = "2021"
publish = false

[dependencies]
async-trait = "0.1"
chrono = "0.4"
once_cell = "1"
rand = "0.8"
regex = "1"
reqwest = { version = "0.10", default-features = false, features = ["json", "rustls-tls"] }
serde = { version = "1", features = ["derive"] }
serde_json = "1"
serenity = "0.9"
tokio = { version = "0.2", features = ["full"] }
toml = "0.5"
