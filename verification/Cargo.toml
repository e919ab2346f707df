[package]
name = "ios_local_notification"
version = "0.1.0"
edition = "2021"
publish = false

[dependencies]
swift-rs = "1"
