[package]
name = "autorand"
version = "0.1.0"
edition = "2021"
publish = false

[dependencies]
rand = "=0.8.8"
serde_json = "=1.0.151"
syn = "=2.0.119"
quote = "1"
