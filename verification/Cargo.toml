[package]
name = "crypto_benchmark"
version = "0.2.0"
edition = "2021"
publish = false

[dependencies]
axum = "=0.7.9"
ed25519-dalek = "=2.2.0"
p256 = { version = "=0.13.2", features = ["ecdh", "ecdsa"] }
pqcrypto-falcon = "=0.4.1"
pqcrypto-mldsa = "=0.1.2"
pqcrypto-mlkem = "=0.1.1"
pqcrypto-traits = "=0.3.5"
rand = "=0.8.8"
rsa = "=0.9.10"
serde = { version = "=1.0.229", features = ["derive"] }
sha2 = "=0.10.9"
sysinfo = "=0.39.6"
tokio = { version = "=1.54.1", features = ["full"] }
tower-http = { version = "=0.7.1", features = ["fs"] }
x25519-dalek = { version = "=2.0.1", features = ["reusable_secrets"] }
