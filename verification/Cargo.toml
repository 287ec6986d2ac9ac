[package]
name = "hanabi_bot"
version = "0.1.0"
edition = "2021"
publish = false

[dependencies]
async-trait = "=0.1.92"
clap = { version = "=4.6.7", features = ["derive"] }
color-eyre = "=0.6.5"
ezsockets = { version = "=0.7.2", features = ["rustls"] }
futures = "=0.3.34"
http = "=1.5.0"
reqwest = { version = "=0.13.5", features = ["cookies", "form"] }
serde = { version = "=1.0.229", features = ["derive"] }
serde_json = { version = "=1.0.154", features = ["preserve_order"] }
serde_with = "=3.24.0"
thiserror = "=2.0.21"
tokio = { version = "=1.54.1", features = ["macros", "rt-multi-thread"] }
tracing = "=0.1.44"
tracing-subscriber = "=0.3.23"
url = "=2.5.8"
