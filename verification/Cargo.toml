[package]
name = "ferrite"
version = "0.1.0"
edition = "2021"
publish = false

[dependencies]
bytes = "1"
md-5 = "0.10"
uuid = "1"
flate2 = "1"
anyhow = "1"
tokio = { version = "1", features = ["rt-multi-thread", "net", "io-util", "sync", "macros", "time"] }
tracing = "0.1"
tracing-subscriber = "0.3"
clap = { version = "4", features = ["derive"] }
aes = "0.8"
cfb8 = "0.8"
cipher = "0.4"
rsa = "0.9"
rand = "0.8"
glam = "0.29"
