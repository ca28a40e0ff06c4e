[package]
name = "nook"
version = "0.1.2"
edition = "2021"
publish = false

[dependencies]
block2 = "0.6"
objc2 = "0.6"
objc2-app-kit = "0.3"
objc2-foundation = "0.3"
objc2-service-management = "0.3"
