[package]
name = "lightsync"
version = "0.1.0"
edition = "2021"
publish = false

[dependencies]
anyhow = "1"
ashpd = { version = "=0.13.13", default-features = false, features = ["screencast", "tokio"] }
async-trait = "0.1"
clap = { version = "4", features = ["derive"] }
fluent-bundle = "=0.16.0"
gtk4 = "=0.11.5"
hex = "=0.4.3"
keyring = { version = "=3.6.3", features = ["async-secret-service", "crypto-rust", "tokio"] }
libadwaita = "=0.9.2"
mdns-sd = "=0.21.7"
openssl = "0.10"
pipewire = "=0.10.1"
reqwest = { version = "0.12", default-features = false, features = ["json", "rustls-tls"] }
serde = { version = "1", features = ["derive"] }
serde_json = "1"
tokio = { version = "1", features = ["full"] }
toml = "=1.1.8"
tracing = "0.1"
tracing-journald = "0.3"
tracing-subscriber = { version = "0.3", features = ["env-filter"] }
unic-langid = "=0.9.6"
uuid = { version = "=1.29.0", features = ["v4", "serde"] }
