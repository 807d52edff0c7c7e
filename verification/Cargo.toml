[package]
name = "mihomoctl"
version = "0.1.0"
edition = "2021"
publish = false

[dependencies]
serde_json = "=1.0.154"
url = "=2.5.8"
urlencoding = "=2.1.3"
serde = { version = "=1.0.229", features = ["derive"] }
ron = "=0.8.1"
ureq = "=2.12.1"
tungstenite = "=0.21.0"
clap = { version = "=4.6.7", features = ["derive"] }
clap_complete = "=4.6.11"
requestty = "=0.5.0"
terminal_size = "=0.3.0"
crossterm = "=0.27.0"
log = "=0.4.35"
env_logger = "=0.10.2"
owo-colors = "=3.5.0"
bytesize = "1"
