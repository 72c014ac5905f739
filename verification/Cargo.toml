[package]
name = "weather_station"
version = "0.1.0"
edition = "2021"
publish = false

[dependencies]
colored = "2"
config = { version = "0.13", default-features = false, features = ["toml"] }
reqwest = { version = "0.11", default-features = false, features = ["blocking", "json"] }
rustyline = "10"
serde = { version = "1", features = ["derive"] }
toml = "0.5"
