[package]
name = "leafcast"
version = "0.1.0"
edition = "2021"
publish = false

[dependencies]
base64 = "*"
clap = { version = "*", features = ["derive"] }
dotenvy = "*"
figlet-rs = "*"
futures-util = "*"
image = { version = "*", default-features = false, features = ["jpeg"] }
jiff = { version = "*", features = ["tzdb-bundle-always"] }
reqwest = { version = "*", default-features = false, features = ["json"] }
serde = { version = "*", features = ["derive"] }
serde_json = "*"
sudo = "*"
thiserror = "*"
tokio = { version = "*", features = ["full"] }
tokio-tungstenite = "*"
tracing = "*"
tracing-appender = "*"
tracing-subscriber = { version = "*", features = ["json"] }
webp = "*"
