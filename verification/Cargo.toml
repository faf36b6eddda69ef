[package]
name = "ipfs_server"
version = "0.1.0"
edition = "2021"
publish = false

[dependencies]
base64 = "=0.22.1"
clap = { version = "=4.5.61", features = ["derive"] }
indicatif = "=0.17.11"
libipld = "*"
tokio = { version = "=1.53.2", features = ["fs", "io-std", "io-util", "macros", "rt-multi-thread", "signal", "time"] }
zeroize = "=1.8.2"
