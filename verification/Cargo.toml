[package]
name = "zebra"
version = "0.1.0"
edition = "2021"
publish = false

[dependencies]
byteorder = "1"
sha2 = "0.10"
futures = "0.3"
tokio = { version = "1", features = ["sync"] }
tower = { version = "0.4", features = ["buffer", "util"] }

[dev-dependencies]
hex = "0.4"
