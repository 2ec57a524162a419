[package]
name = "plustwo_collector"
version = "0.1.0"
edition = "2021"
publish = false

[dependencies]
chrono = "=0.4.45"
eyre = "=0.6.14"
futures = "=0.3.34"
reqwest = { version = "=0.13.5", default-features = false, features = ["rustls"] }
sqlx = { version = "=0.9.0", features = ["postgres", "runtime-tokio", "chrono", "uuid"] }
tokio = { version = "=1.53.2", features = ["rt-multi-thread", "macros", "net", "time"] }
tokio-tungstenite = "=0.30.0"
twitch_api = { version = "=0.8.0", features = ["helix", "eventsub", "reqwest", "client", "twitch_oauth2"] }
