[package]
name = "claudometer"
version = "0.1.0"
edition = "2021"
publish = false

[dependencies]
serde_json = "1"
keyring = "3"
time = { version = "0.3", features = ["formatting"] }
chrono = { version = "0.4", features = ["unstable-locales"] }
urlencoding = "2"
tokio = { version = "1", features = ["rt-multi-thread", "macros", "process", "io-util", "time", "sync"] }
reqwest = { version = "0.12", default-features = false, features = ["json", "rustls-tls"] }
