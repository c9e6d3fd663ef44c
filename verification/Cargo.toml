[package]
name = "mumble_client"
version = "0.1.0"
edition = "2021"
publish = false

[dependencies]
os_info = "=3.15.0"
tokio = { version = "=1.53.2", features = ["full"] }
futures = "*"
tokio-rustls = "=0.24.1"
tokio-util = { version = "*", features = ["codec"] }
rustls-native-certs = "=0.6.3"
log = "*"
pretty_env_logger = "*"
serde = { version = "*", features = ["derive"] }
serde_derive = "*"
serde_json = "*"
teloxide = { version = "=0.12.2", default-features = false, features = ["rustls", "ctrlc_handler", "macros"] }
dptree = "=0.3.0"
takecell = "=0.1.1"
