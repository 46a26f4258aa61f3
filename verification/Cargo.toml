[package]
name = "tidal_auth"
version = "0.1.0"
edition = "2021"
publish = false

[dependencies]
log = "=0.4.34"
reqwest = { version = "=0.11.27", features = ["json"] }
serde = { version = "=1.0.229", features = ["derive"] }
thiserror = "=1.0.69"

[dev-dependencies]
reqwest = { version = "=0.11.27", features = ["json", "blocking"] }
