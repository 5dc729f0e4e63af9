[package]
name = "feedback_modal"
version = "0.1.0"
edition = "2021"
publish = false

[dependencies]
anyhow = "1"
futures = "0.3"
http = "1"
log = "0.4"
regex = "1"
serde = { version = "1", features = ["derive"] }
serde_derive = "1"
serde_json = "1"
smol = "2"

[dev-dependencies]
bitflags = "2"
