[package]
name = "code-sandbox"
version = "0.1.0"
edition = "2021"
publish = false

[dependencies]
log = "=0.4.35"
serde_json = "=1.0.154"
tempdir = "=0.3.7"
tokio = { version = "=1.54.1", features = ["process", "rt", "time"] }
