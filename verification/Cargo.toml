[package]
name = "udrb"
version = "0.1.0"
edition = "2021"
publish = false

[dependencies]
anyhow = "*"
base64 = "=0.23.1"
constant_time_eq = "=0.6.1"
dns-lookup = "=4.0.2"
env_logger = "*"
hex = "=0.4.3"
hmac-sha256 = "=1.1.15"
html5ever = "=0.27.0"
log = "*"
mail-parser = "=0.11.9"
markup5ever_rcdom = "=0.3.0"
regex = "=1.13.1"
reqwest = { version = "=0.13.5", default-features = false, features = ["blocking"] }
serde = { version = "*", features = ["derive"] }
serde_json = "=1.0.151"
serde_yaml = "*"
sha3 = "=0.12.0"
url = "=2.5.8"
websocket = { version = "=0.27.1", default-features = false, features = ["sync"] }
