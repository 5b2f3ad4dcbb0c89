[package]
name = "vex_v5_serial"
version = "0.1.0"
edition = "2021"
publish = false

[dependencies]
anyhow = "1"
ascii = "1"
bincode = "1"
chrono = "0.4"
serde = { version = "1", features = ["derive"] }
serde_ini = "0.2"
tokio = { version = "1", features = ["io-util", "time", "rt"] }
tokio-serial = { version = "5", default-features = false }
