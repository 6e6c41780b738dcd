[package]
name = "rns_vpn"
version = "0.1.0"
edition = "2021"
publish = false

[dependencies]
cidr = { version = "=0.3.2", features = ["serde"] }
clap = { version = "=4.6.7", features = ["derive"] }
ed25519-dalek = { version = "=2.2.0", features = ["pkcs8", "pem"] }
env_logger = "=0.11.11"
etherparse = "=0.21.0"
ipnet = "=2.12.2"
log = "=0.4.34"
nix = "=0.23.2"
pem = "=4.0.0"
reticulum = "=0.1.0"
riptun = "=0.1.4"
serde = { version = "=1.0.229", features = ["derive"] }
tokio = { version = "=1.54.1", features = ["full"] }
toml = "=1.1.8"
x25519-dalek = { version = "=2.0.1", features = ["static_secrets"] }
