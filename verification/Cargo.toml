[package]
name = "node_stream"
version = "0.1.0"
edition = "2021"
publish = false

[dependencies]
kafka = { version = "*", default-features = false }
rand = "0.8"
