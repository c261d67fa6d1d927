[package]
name = "redsync"
version = "1.0.1"
edition = "2021"

[dependencies]
rand = "0.8"
redis = { version = "0.21", default-features = false, features = ["script"] }
thiserror = "1.0"
