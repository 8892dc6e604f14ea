[package]
name = "sn_messaging"
version = "0.1.0"
edition = "2021"
publish = false

[dependencies]
bytes = "=1.12.1"
rmp-serde = "1"
serde = { version = "=1.0.229", features = ["derive"] }
sn_data_types = "=0.18.4"
threshold_crypto = "=0.4.0"
xor_name = "=1.3.0"

[dev-dependencies]
rand = "=0.7.3"
