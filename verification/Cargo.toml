[package]
name = "cinnamon"
version = "0.1.0"
edition = "2021"
publish = false

[dependencies]
oauth1-request = "0.5"
url = "2"
reqwest = { version = "0.11", default-features = false, features = ["blocking", "rustls-tls"] }
rocket = "0.5"
dotenv = "0.15"
log = "0.4"
pretty_env_logger = "0.4"
