[package]
name = "flapboard"
version = "0.1.0"
edition = "2021"
publish = false

[dependencies]
chrono = "=0.4.45"
config = "=0.15.27"
openweathermap = "=0.2.4"
rspotify = { version = "=0.16.1", features = ["cli"] }
serde = "=1.0.229"
tokio = { version = "=1.54.1", features = ["macros", "rt-multi-thread"] }
vestalia = "=0.1.1"
