[package]
name = "connectivity"
version = "0.1.0"
edition = "2021"
publish = false

[dependencies]
anyhow = "1"
embedded-svc = "*"
esp-idf-hal = "*"
esp-idf-svc = "*"
esp-idf-sys = "*"
heapless = { version = "0.8", features = ["serde"] }
log = "0.4"
serde = { version = "1", features = ["derive"] }
serde_urlencoded = "0.7"
