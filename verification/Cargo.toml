[package]
name = "rtr_client"
version = "0.1.0"
edition = "2021"
publish = false

[dependencies]
tokio = { version = "1", default-features = false, features = ["time", "io-util"] }
