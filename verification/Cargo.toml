[package]
name = "bodyflow"
version = "0.1.0"
edition = "2021"
publish = false

[dependencies]
bytes = "1"
futures = "0.3"
hyper = { version = "0.14", features = ["client", "http1", "stream"] }
async-compression = { version = "0.4", features = ["futures-io", "gzip", "zlib", "brotli", "lz4"] }
