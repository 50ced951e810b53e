[package]
name = "elk_bledom_controller"
version = "0.1.0"
edition = "2021"
publish = false

[dependencies]
btleplug = "*"
chrono = "*"
log = "*"
thiserror = "*"
tokio = { version = "1", features = ["time"] }
uuid = "*"
