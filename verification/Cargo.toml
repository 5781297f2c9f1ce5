[package]
name = "recordbox"
version = "0.1.0"
edition = "2021"
publish = false

[dependencies]
axum = "=0.8.9"
chrono = "=0.4.45"
config = "=0.15.27"
mp4ameta = "=0.13.0"
musicbrainz_rs = "=0.12.0"
reqwest = { version = "=0.12.28", features = ["json"] }
rusqlite = "=0.41.0"
serde = { version = "=1.0.229", features = ["derive"] }
serde_sqlite_jsonb = "=0.2.1"
tokio = { version = "=1.54.1", features = ["full"] }
