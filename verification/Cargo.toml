[package]
name = "vpn_client"
version = "0.1.0"
edition = "2021"
publish = false

[dependencies]
base64 = "0.22"
x25519-dalek = { version = "2", features = ["static_secrets"] }
rand = "0.8"
serde = { version = "1", features = ["derive"] }
toml = "0.8"
clap = { version = "4", features = ["derive"] }
ctrlc = "3"
env_logger = "0.11"
defguard_wireguard_rs = "*"
