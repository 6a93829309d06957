[package]
name = "stream_stash"
version = "0.1.0"
edition = "2021"
publish = false

[dependencies]
anyhow = "=1.0.104"
axum = "=0.8.9"
axum-cookie = "=0.3.0"
axum-htmx = { version = "=0.8.1", features = ["auto-vary"] }
dotenvy = "=0.15.7"
hypertext = { version = "=0.12.1", features = ["axum", "htmx"] }
jsonwebtoken = { version = "=10.4.0", default-features = false, features = ["rust_crypto"] }
maud = { version = "=0.27.0", features = ["axum"] }
reqwest = { version = "=0.12.28", default-features = false, features = ["json", "rustls-tls"] }
serde = { version = "=1.0.229", features = ["derive"] }
sqlx = { version = "=0.8.6", default-features = false, features = ["runtime-tokio", "sqlite", "time"] }
thiserror = "=2.0.21"
time = { version = "=0.3.55", features = ["formatting", "parsing", "macros"] }
tokio = { version = "=1.54.1", features = ["macros", "rt-multi-thread", "net", "signal", "sync", "time"] }
tower-http = { version = "=0.6.11", features = ["fs", "trace"] }
tower-sessions = "=0.14.0"
tower-sessions-sqlx-store = { version = "=0.15.0", features = ["sqlite"] }
tracing = "=0.1.44"
tracing-subscriber = "=0.3.23"
url = "=2.5.8"
