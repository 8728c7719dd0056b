[package]
name = "lottery"
version = "0.1.0"
edition = "2021"
publish = false

[dependencies]
sha2 = "=0.10.9"
base64ct = { version = "=1.8.3", features = ["alloc"] }
cosmwasm-std = "=1.5.11"
cosmwasm-schema = "=1.5.11"
cw-storage-plus = "=1.2.0"
cw-utils = "1"

[dev-dependencies]
chrono = "=0.4.45"
