[package]
name = "laundry_monitor"
version = "0.1.0"
edition = "2021"
publish = false

[dependencies]
rppal = "*"
twilio = "*"
log = "*"
simplelog = "*"
tokio = { version = "*", default-features = false, features = ["rt"] }
