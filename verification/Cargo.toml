[package]
name = "favicon_resolver"
version = "0.1.0"
edition = "2021"
publish = false

[dependencies]
axum = "*"
base64 = "*"
futures = "*"
reqwest = { version = "*", default-features = false }
sanitize-filename = "*"
scraper = "*"
serde = { version = "*", features = ["derive"] }
tokio = { version = "*", features = ["full"] }
tracing = "*"
tracing-subscriber = "*"
url = "*"
zip = { version = "*", default-features = false }
