[package]
name = "selah"
version = "0.1.0"
edition = "2021"
publish = false

[dependencies]
futures-core = "0.3"
iced = { version = "0.14", features = ["tokio"] }
nusb = "0.2"
tracing = "0.1"
