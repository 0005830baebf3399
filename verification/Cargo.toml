[package]
name = "privaxy_filters"
version = "0.1.0"
edition = "2021"
publish = false

[dependencies]
futures = "0.3"
hex = "0.4"
log = "0.4"
reqwest = { version = "0.12", default-features = false }
serde = { version = "1", features = ["derive"] }
serde_with = "3"
sha2 = "0.10"
tokio = { version = "1", features = ["fs"] }
url = "2"
