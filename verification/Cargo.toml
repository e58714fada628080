[package]
name = "curator"
version = "0.1.0"
edition = "2021"
publish = false

[dependencies]
anyhow = "1"
clap = { version = "4", features = ["derive"] }
image = { version = "0.25", default-features = false, features = ["png"] }
reqwest = { version = "0.12", default-features = false, features = ["blocking", "rustls-tls"] }
route-recognizer = "0.3"
serde = { version = "1", features = ["derive"] }
serde_json = "1"
ureq = "2"
webp = "0.3"
