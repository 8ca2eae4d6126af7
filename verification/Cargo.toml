[package]
name = "keyboard_cat"
version = "0.1.0"
edition = "2021"
publish = false

[dependencies]
humantime = "2"
poise = "0.6"
reqwest = { version = "0.12", default-features = false, features = ["rustls-tls"] }
rspotify = { version = "0.13", default-features = false, features = ["client-reqwest", "reqwest-rustls-tls"] }
rusty_ytdl = { version = "0.7", default-features = false, features = ["search", "rustls-tls"] }
thiserror = "1"
tokio = { version = "1", features = ["macros", "rt-multi-thread", "sync"] }
tracing = "0.1"
tracing-subscriber = { version = "0.3", features = ["env-filter"] }
url = "2"
