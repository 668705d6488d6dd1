[package]
name = "slay_bot"
version = "0.1.0"
edition = "2021"
publish = false

[dependencies]
async-trait = "*"
chrono = "=0.4.45"
chrono-tz = "=0.10.4"
dashmap = "=6.2.1"
dotenvy = "*"
dptree = "*"
rand = "=0.10.3"
reqwest = { version = "*", default-features = false, features = ["json", "rustls-tls"] }
serde = { version = "*", features = ["derive"] }
serde_json = "*"
serde_with = "*"
takecell = "=0.1.1"
teloxide = "=0.17.0"
thiserror = "*"
tokio = { version = "*", features = ["rt-multi-thread", "macros", "sync", "fs", "io-util"] }
url = "*"
uuid = { version = "*", features = ["v4"] }
