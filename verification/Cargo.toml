[package]
name = "notefeed"
version = "0.1.0"
edition = "2021"
publish = false

[dependencies]
nostr-types = "*"
serde_json = "*"
