[package]
name = "ft"
version = "0.1.0"
edition = "2021"
publish = false

[dependencies]
aes-gcm = "=0.10.3"
rand = "=0.9.5"
rand_core = { version = "=0.6.4", features = ["getrandom"] }
rand_chacha = "0.3"
sha2 = "=0.10.9"
x25519-dalek = "=2.0.1"
serde = { version = "=1.0.229", features = ["derive"] }
serde_json = "=1.0.154"
tokio = { version = "=1.54.1", features = ["full"] }
clap = { version = "=4.6.7", features = ["derive"] }
log = "=0.4.35"
simple_logger = "=5.2.0"
indicatif = "=0.17.11"
rustls = { version = "=0.23.46", default-features = false, features = ["ring", "std", "tls12", "logging"] }
rustls-pemfile = "=2.2.0"
