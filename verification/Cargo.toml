[package]
name = "resp_result"
version = "0.1.0"
edition = "2021"
publish = false

[dependencies]
http = "=1.5.0"
mime = "=0.3.17"
serde = { version = "=1.0.229", features = ["derive"] }
serde_json = "=1.0.154"
proc-macro2 = "=1.0.107"
quote = "=1.0.47"
syn = { version = "=2.0.119", features = ["full"] }
darling = "=0.20.11"
axum = { version = "=0.8.9", default-features = false, features = ["json", "form", "query"] }
