[package]
name = "ai00_server"
version = "0.1.0"
edition = "2021"
publish = false

[dependencies]
flume = "=0.12.0"
log = "=0.4.34"
memmap2 = "=0.9.11"
salvo = { version = "=1.0.0", default-features = false, features = ["server", "http1", "http2", "acme", "quinn", "rustls", "jwt-auth", "serve-static", "cors", "affix-state"] }
serde = { version = "=1.0.229", features = ["derive"] }
tempfile = "=3.27.0"
tokio = { version = "=1.53.2", features = ["fs", "io-util", "macros", "rt-multi-thread"] }
toml = "=1.1.6"
zip = "=4.6.1"
