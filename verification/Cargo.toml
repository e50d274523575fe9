[package]
name = "carbleurator"
version = "0.1.0"
edition = "2021"
publish = false

[dependencies]
btleplug = "*"
gilrs = "*"
tokio = { version = "*", features = ["rt", "time", "macros"] }
uuid = "*"
