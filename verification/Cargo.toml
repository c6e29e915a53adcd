[package]
name = "rut"
version = "0.1.0"
edition = "2021"
publish = false

[dependencies]
base64 = "0.21"
sha2 = "0.10"
serde = { version = "1", features = ["derive"] }
serde_json = "1"
tiny_http = "0.12"
rusqlite = { version = "*", features = ["bundled"] }
rusqlite_migration = "*"
log = "0.4"
env_logger = "*"
frankenstein = "0.30"
