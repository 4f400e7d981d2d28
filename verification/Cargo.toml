[package]
name = "attestation_auth_server"
version = "0.1.0"
edition = "2021"
publish = false

[dependencies]
anyhow = "1"
base64 = "0.21"
chrono = { version = "0.4", default-features = false, features = ["clock"] }
clap = { version = "4", features = ["derive"] }
config = { version = "0.13", default-features = false, features = ["toml"] }
env_logger = { version = "0.10", default-features = false }
kbs-types = "0.5"
log = "0.4"
rand = "0.8"
rcgen = { version = "0.11", features = ["pem", "x509-parser"] }
serde = { version = "1", features = ["derive"] }
serde_json = "1"

[dev-dependencies]
x509-parser = "0.16"
