[package]
name = "deltar"
version = "0.1.0"
edition = "2021"
publish = false

[dependencies]
url = "=2.5.8"
chrono = { version = "=0.4.45", default-features = false, features = ["std"] }
tokio = { version = "=1.53.2", default-features = false, features = ["rt-multi-thread"] }
async-trait = "=0.1.92"
parking_lot = "=0.12.5"
