[package]
name = "fates_core"
version = "0.1.0"
edition = "2021"
publish = false

[dependencies]
chrono = "*"
chinese_holiday = "*"
uuid = { version = "*", features = ["v4"] }
