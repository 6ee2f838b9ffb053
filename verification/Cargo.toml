[package]
name = "librebmc"
version = "0.1.0"
edition = "2021"
publish = false

[dependencies]
hyper = { version = "0.14", features = ["full"] }
tokio = { version = "1", features = ["rt-multi-thread", "macros", "net"] }
serde_json = "1"
uuid = { version = "1", features = ["v4"] }
