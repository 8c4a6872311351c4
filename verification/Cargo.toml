[package]
name = "hue_bt"
version = "0.1.0"
edition = "2021"
publish = false

[dependencies]
btleplug = "*"
thiserror = "*"
tokio = { version = "1", features = ["time"] }
uuid = "1"
