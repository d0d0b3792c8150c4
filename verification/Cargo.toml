[package]
name = "polishd"
version = "0.1.0"
edition = "2021"
publish = false

[dependencies]
tokio = { version = "=1.54.1", features = ["time", "sync", "rt", "macros"] }
reqwest = { version = "=0.12.28", default-features = false, features = ["json", "rustls-tls"] }
serde = { version = "=1.0.229", features = ["derive"] }
arboard = "=3.7.0"
enigo = "=0.3.0"
x11rb = "=0.13.2"
atspi = "=0.25.0"
futures-util = "=0.3.34"
