[package]
name = "shape_stream"
version = "0.1.0"
edition = "2021"
publish = false

[dependencies]
async-stream = "*"
futures = "*"
reqwest = { version = "*", default-features = false }
