[package]
name = "zino"
version = "0.1.0"
edition = "2021"
publish = false

[dependencies]
ahash = "=0.8.12"
convert_case = "=0.12.0"
uuid = { version = "=1.29.1", features = ["v4", "serde"] }
chrono = { version = "=0.4.45", default-features = false, features = ["clock"] }
serde = { version = "=1.0.229", features = ["derive"] }
serde_json = "=1.0.154"
tracing = "=0.1.44"
toml = "=1.2.1"
dioxus = { version = "=0.7.10", default-features = false, features = ["macro", "html", "signals", "hooks"] }
metrics = "0.24"
