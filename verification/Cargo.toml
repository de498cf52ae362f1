[package]
name = "chainsaw"
version = "0.1.0"
edition = "2021"
publish = false

[dependencies]
anyhow = "1"
chrono = "0.4"
evtx = "*"
indicatif = "*"
prettytable-rs = "*"
regex = "1"
serde = { version = "1", features = ["derive"] }
serde_json = "1"
serde_yaml = "*"
structopt = "0.3"
tau-engine = { version = "1", features = ["core"] }
walkdir = "2"
