[package]
name = "gitcoach"
version = "0.1.0"
edition = "2021"
publish = false

[dependencies]
pulldown-cmark = { version = "*", default-features = false, features = ["html"] }
serde = { version = "1", features = ["derive"] }
serde_json = "1"
axum = "*"
tokio = { version = "1", features = ["full"] }
tower-http = { version = "*", features = ["cors"] }
reqwest = { version = "*", features = ["json"] }
gemini-rust = "*"
dotenvy = "*"
tracing-subscriber = "*"
leptos = { version = "*", features = ["csr"] }
gloo-net = "*"
gloo-storage = "*"
console_log = "*"
console_error_panic_hook = "*"
log = "*"
