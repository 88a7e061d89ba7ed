[package]
name = "stwo_p256"
version = "0.1.0"
edition = "2021"
publish = false

[dependencies]
stwo = "=2.3.0"
stwo-constraint-framework = "=2.3.0"
num-traits = "=0.2.19"
serde = { version = "=1.0.229", features = ["derive"] }

[dev-dependencies]
p256 = { version = "=0.13.2", features = ["ecdsa"] }
ecdsa = "=0.16.9"
sha2 = "=0.10.9"
rand = "=0.8.8"
