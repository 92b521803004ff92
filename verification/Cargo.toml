[package]
name = "remux_trackers"
version = "0.1.0"
edition = "2021"
publish = false

[dependencies]
anyhow = "1"
async-trait = "0.1"
axum = { version = "0.8", default-features = false, features = ["json", "tokio", "http1"] }
axum-anyhow = "*"
chrono = { version = "0.4", default-features = false, features = ["std", "clock"] }
dioxus = { version = "0.6", default-features = false, features = ["macro", "html", "signals", "hooks"] }
gloo-timers = { version = "0.3", features = ["futures"] }
http = "1"
inventory = "0.3"
reqwest = { version = "0.12", default-features = false, features = ["json", "rustls-tls"] }
serde = { version = "1", features = ["derive"] }
serde_json = "1"
sqlx = { version = "0.8", default-features = false, features = ["runtime-tokio", "sqlite", "chrono", "uuid", "macros"] }
tokio = { version = "1", features = ["sync"] }
tracing = "0.1"
url = "2"
uuid = { version = "1", features = ["serde", "v5"] }
