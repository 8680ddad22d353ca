[package]
name = "gdrivexp_bridge"
version = "0.1.0"
edition = "2021"
publish = false

[dependencies]
percent-encoding = "2"
libc = "0.2"
tokio = { version = "1", features = ["rt", "net", "time", "io-util"] }
crossbeam-channel = "0.5"

[dev-dependencies]
serde = "1"
bincode = "1"
