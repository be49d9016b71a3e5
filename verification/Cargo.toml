[package]
name = "rusty_melvor"
version = "0.1.0"
edition = "2021"
publish = false

[dependencies]
base64 = "0.22"
flate2 = "1"
serde = "1"
serde_json = "1"
