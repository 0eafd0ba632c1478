[package]
name = "mdget"
version = "0.1.0"
edition = "2021"
publish = false

[dependencies]
chrono = "0.4"
console = "0.15"
directories = "5"
reqwest = { version = "0.11", features = ["blocking", "json"] }
serde = "1"
serde_derive = "1"
serde_json = "1"
sha2 = "0.10"
toml = "0.7"
