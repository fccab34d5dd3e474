[package]
name = "good_ressource"
version = "0.1.0"
edition = "2021"
publish = false

[dependencies]
serde = "1"
serde_json = "1"
ron = "0.8"
notify = "6"
