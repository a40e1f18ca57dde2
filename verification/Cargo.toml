[package]
name = "serial_relay"
version = "0.1.0"
edition = "2021"
publish = false

[dependencies]
tokio = { version = "1", features = ["rt-multi-thread", "macros", "io-util", "io-std"] }
tokio-serial = { version = "5", default-features = false }
futures = "0.3"
structopt = "0.3"
