[package]
name = "fm_synth"
version = "0.1.0"
edition = "2021"
publish = false

[dependencies]
serde = { version = "*", features = ["derive"] }
serde_json = "*"
tungstenite = "*"
crossbeam-channel = "*"
midir = "*"
rodio = "*"
