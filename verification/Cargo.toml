[package]
name = "yandex_music_mod"
version = "0.1.0"
edition = "2021"
publish = false

[dependencies]
anyhow = "1"
asar = "*"
clap = { version = "4", features = ["derive"] }
indicatif = "0.17"
reqwest = { version = "*", default-features = false, features = ["rustls-tls"] }
serde = { version = "1", features = ["derive"] }
serde_json = "1"
serde_yaml = "0.9"
thiserror = "1"
tokio = { version = "1", features = ["rt-multi-thread", "macros"] }
tracing = "0.1"
tracing-subscriber = "0.3"
walkdir = "2"
zip = { version = "*", default-features = false, features = ["deflate"] }
