[package]
name = "jeedom_summary"
version = "0.1.0"
edition = "2021"
publish = false

[dependencies]
serde = { version = "=1.0.229", features = ["derive"] }
serde_json = "=1.0.151"
ureq = { version = "=2.12.1", features = ["json"] }
url = "=2.5.8"
clap = { version = "=4.6.7", features = ["derive", "env"] }
thiserror = "=1.0.69"
