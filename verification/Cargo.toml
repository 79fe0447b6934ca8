[package]
name = "namespaced_tmp"
version = "0.1.0"
edition = "2021"
publish = false

[dependencies]
tokio = { version = "1", features = ["fs"] }
whoami = { version = "1", default-features = false }
