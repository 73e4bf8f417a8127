[package]
name = "fbthrift_transport"
version = "0.1.0"
edition = "2021"
publish = false

[dependencies]
anyhow = "1"
async-compat = "*"
async-io = "*"
async-sleep = { version = "=0.5.1", features = ["impl_tokio", "impl_async_io", "rw"] }
bytes = "1"
fbthrift = "=0.0.3"
futures-util = "0.3"
tokio = { version = "1", features = ["net", "time"] }
