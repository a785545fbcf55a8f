[package]
name = "raylib_api"
version = "0.1.0"
edition = "2021"
publish = false

[dependencies]
cmake = "0.1"
fnv = "1"
mint = "0.5"
serde = { version = "1", features = ["derive"] }
serde_json = "1"
static_assertions = "1"
