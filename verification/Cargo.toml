[package]
name = "gemcore"
version = "0.1.0"
edition = "2021"
publish = false

[dependencies]
num-bigint = "0.4"
chrono = { version = "0.4", default-features = false, features = ["std", "clock"] }
serde_json = "1"
