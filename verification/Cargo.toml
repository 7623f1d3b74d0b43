[package]
name = "note_editor"
version = "0.1.0"
edition = "2021"
publish = false

[dependencies]
chrono = { version = "=0.4.45", features = ["serde"] }
clipboard-rs = "=0.3.5"
color-eyre = { version = "=0.6.5", default-features = false }
crossterm = { version = "=0.29.0", features = ["event-stream"] }
dotenvy = "=0.15.7"
futures = { version = "=0.3.34", default-features = false, features = ["std"] }
ratatui = "=0.30.2"
serde = { version = "=1.0.229", features = ["derive"] }
serde_json = "=1.0.154"
sqlx = { version = "=0.8.6", default-features = false, features = ["runtime-tokio", "postgres", "uuid", "chrono", "derive", "migrate"] }
tokio = { version = "=1.54.1", features = ["rt-multi-thread", "macros", "net", "sync", "time"] }
tokio-tungstenite = "=0.30.0"
tracing = "=0.1.44"
tracing-subscriber = { version = "=0.3.23", default-features = false, features = ["fmt"] }
uuid = { version = "=1.29.0", features = ["serde"] }
