[package]
name = "simple_text"
version = "0.1.0"
edition = "2021"
publish = false

[dependencies]
actix-web = "4"
chrono = "0.4"
git2 = "0.18"
serde = { version = "1", features = ["derive"] }
toml = "0.8"
