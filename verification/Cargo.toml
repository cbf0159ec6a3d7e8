[package]
name = "zebra_work"
version = "0.1.0"
edition = "2021"
publish = false

[dependencies]
equihash = { version = "=0.3.1", features = ["solver"] }
hex = "=0.4.3"
randomx-rs = "=1.6.0"
serde = { version = "=1.0.229", features = ["derive"] }
serde-big-array = "=0.5.1"
thiserror = "=2.0.21"
