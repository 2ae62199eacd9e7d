[package]
name = "lariv_rs"
version = "0.1.0"
edition = "2021"
publish = false

[dependencies]
chrono = { version = "=0.4.45", default-features = false, features = ["std", "clock"] }
chrono-tz = "=0.10.4"
serde_json = "=1.0.154"
serde = { version = "=1.0.229", features = ["derive"] }
pulldown-cmark = { version = "=0.13.6", default-features = false, features = ["html"] }
maud = "=0.27.0"
toml = "=0.8.23"
axum = "=0.8.9"
tokio = { version = "=1.54.1", features = ["rt", "macros", "net"] }
phonenumber = "0.3"
clap = "4"
