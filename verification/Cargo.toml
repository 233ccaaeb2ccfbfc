[package]
name = "twitch_eventsub"
version = "0.1.0"
edition = "2021"
publish = false

[dependencies]
serde = { version = "=1.0.229", features = ["derive"] }
serde_json = "=1.0.154"
url = "=2.5.8"
toml = "=1.1.8"
tokio = { version = "=1.54.1", features = ["macros", "rt-multi-thread", "sync"] }
lapin = { version = "=4.12.3", default-features = false, features = ["default-runtime"] }
reqwest = { version = "=0.13.5", default-features = false, features = ["json", "form"] }
tiny_http = "=0.12.0"
tokio-tungstenite = { version = "=0.30.0", default-features = false, features = ["connect"] }
futures-util = "=0.3.34"
