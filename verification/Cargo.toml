[package]
name = "sui_events"
version = "0.1.0"
edition = "2021"
publish = false

[dependencies]
anyhow = "1"
move-core-types = "=0.0.3"
schemars = "0.8"
serde = { version = "1", features = ["derive"] }
serde_json = "1"
serde_with = "3"
strum_macros = "0.24"
