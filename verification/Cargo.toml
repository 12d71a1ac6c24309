[package]
name = "filesvc_rs"
version = "0.1.0"
edition = "2021"
publish = false

[dependencies]
reqwest = { version = "=0.13.5", default-features = false, features = ["query"] }
thiserror = "*"
