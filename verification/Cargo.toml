[package]
name = "whitelist_link"
version = "0.1.0"
edition = "2021"
publish = false

[dependencies]
url = "=2.5.8"
diesel = { version = "=1.4.8", features = ["mysql", "r2d2"] }
dotenv = "=0.15.0"
rcon = "=0.1.0"
reqwest = "=0.9.24"
retry = "=0.5.1"
serde = { version = "=1.0.229", features = ["derive"] }
serde_json = "=1.0.154"
serde_yaml = "=0.8.26"
serenity = "=0.7.8"
