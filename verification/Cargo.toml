[package]
name = "dnsrecon-rs"
version = "0.1.0"
edition = "2021"
publish = false

[dependencies]
clap = { version = "4", features = ["derive"] }
ipnetwork = "0.20"
quick-xml = "0.31"
rand = "0.8"
regex = "1"
reqwest = { version = "0.11", features = ["socks"] }
rusqlite = { version = "0.30", features = ["bundled"] }
scraper = "0.18"
serde = { version = "1", features = ["derive"] }
serde_json = "1"
thiserror = "1"
tokio = { version = "1", features = ["rt-multi-thread", "macros", "time", "sync"] }
tracing = "0.1"
tracing-subscriber = "0.3"
trust-dns-client = "0.23"
trust-dns-resolver = "0.23"
url = "2"
