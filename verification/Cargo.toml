[package]
name = "xch-keygen"
version = "0.1.0"
edition = "2021"
publish = false

[dependencies]
bech32 = "0.11"
bip39 = "2"
chia = "0.27"
clap = { version = "4", features = ["derive"] }
dirs = "6"
hex = "0.4"
native-tls = "0.2"
rand = "0.9"
rand_chacha = "0.9"
serde = { version = "1", features = ["derive"] }
serde_json = "1"
tokio = { version = "1", features = ["rt"] }
tungstenite = { version = "0.26", features = ["native-tls"] }
