[package]
name = "reqwest_builder"
version = "0.1.0"
edition = "2021"
publish = false

[dependencies]
mime_guess = "=2.0.5"
http = "=1.5.0"
serde = { version = "=1.0.229", features = ["derive"] }
serde_json = "=1.0.151"
url = "=2.5.8"
reqwest = { version = "=0.13.5", default-features = false }
reqwest-middleware = { version = "=0.5.2", features = ["form", "json", "multipart", "query"] }
syn = "=3.0.6"
quote = "=1.0.47"
proc-macro2 = "=1.0.107"
