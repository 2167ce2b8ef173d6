[package]
name = "tkill-ai"
version = "0.1.0"
edition = "2021"
publish = false

[dependencies]
serde = { version = "=1.0.229", features = ["derive"] }
serde_json = "=1.0.154"
urlencoding = "=2.1.3"
tokio = { version = "=1.54.1", features = ["process", "fs", "rt-multi-thread", "macros"] }
reqwest = { version = "=0.11.27", default-features = false, features = ["json", "rustls-tls"] }
toml = "=0.8.23"
dirs = "=5.0.1"
which = "=4.4.2"
hound = "=3.5.1"
tempfile = "=3.27.0"
iced = { version = "0.12", default-features = false, features = ["tokio"] }
