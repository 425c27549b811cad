[package]
name = "mpl_bubblegum"
version = "0.1.0"
edition = "2021"
publish = false

[dependencies]
solana-sdk = "=1.18.26"
bincode = "=1.3.3"
base64 = "=0.13.1"
ureq = "2"
serde_json = "1"
