[package]
name = "snail"
version = "0.1.0"
edition = "2021"
publish = false

[dependencies]
similar = "2"
clap = { version = "4", features = ["derive"] }
pyo3 = "0.22"
reqwest = { version = "0.12", default-features = false, features = ["blocking", "json", "rustls-tls"] }
serde = { version = "1", features = ["derive"] }
