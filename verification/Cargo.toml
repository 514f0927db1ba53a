[package]
name = "warden_worker"
version = "0.1.0"
edition = "2021"
publish = false

[dependencies]
serde = { version = "=1.0.229", features = ["derive"] }
serde_json = "=1.0.154"
constant_time_eq = "=0.6.1"
chrono = "=0.4.45"
jsonwebtoken = { version = "=11.1.0", features = ["rust_crypto"] }
uuid = { version = "=1.29.0", features = ["v4"] }
worker = { version = "=0.8.7", features = ["http", "axum", "d1"] }
axum = { version = "=0.8.9", default-features = false, features = ["json", "query"] }
tower-http = { version = "=0.7.1", features = ["cors"] }
tower-service = "=0.3.3"
wasm-bindgen = "=0.2.130"
web-sys = { version = "=0.3.107", features = ["Response"] }
console_error_panic_hook = "=0.1.7"
console_log = "=1.1.0"
log = "=0.4.35"
