[package]
name = "feedr"
version = "0.1.0"
edition = "2021"
publish = false

[dependencies]
async-trait = "=0.1.92"
axum = { version = "=0.8.9", features = ["multipart"] }
axum-login = "=0.17.0"
base64 = "=0.22.1"
diesel = { version = "=2.3.14", features = ["postgres", "r2d2", "time"] }
eyre = "=0.6.14"
feed-rs = { version = "=2.4.0", features = ["sanitize"] }
opml = "=1.1.6"
password-auth = "=1.0.0"
reqwest = "=0.12.28"
rmp-serde = "=1.3.1"
serde = { version = "=1.0.229", features = ["derive"] }
thiserror = "=2.0.21"
time = "=0.3.55"
tokio = { version = "=1.54.1", features = ["rt-multi-thread", "macros", "sync", "net", "signal", "time"] }
toml = "=0.8.23"
tower = "=0.5.3"
tower-cookies = "=0.11.0"
tower-http = { version = "=0.6.11", features = ["fs", "trace", "request-id", "sensitive-headers"] }
tower-sessions = { version = "=0.14.0", features = ["signed"] }
tower-sessions-core = { version = "=0.14.0", features = ["deletion-task"] }
tracing = "=0.1.44"
tracing-subscriber = { version = "=0.3.23", features = ["env-filter"] }
url = "=2.5.8"
