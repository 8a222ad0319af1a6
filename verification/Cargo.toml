[package]
name = "pan_spicka"
version = "0.1.3"
edition = "2021"
publish = false

[dependencies]
chrono = "0.4"
dotenv = "0.15"
reqwest = { version = "0.12", default-features = false, features = ["blocking", "json", "rustls-tls"] }
serde = { version = "1", features = ["derive"] }
serde_json = "1"
serenity = "0.12"
tokio = { version = "1", features = ["macros", "rt-multi-thread", "fs"] }
