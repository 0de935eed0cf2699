[package]
name = "bevy_e2e"
version = "0.1.0"
edition = "2021"
publish = false

[dependencies]
serde_json = "=1.0.154"
thiserror = "=2.0.21"
ureq = { version = "=3.5.1", features = ["json"] }
