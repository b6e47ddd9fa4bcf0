[package]
name = "wan_player"
version = "0.1.0"
edition = "2021"
publish = false

[dependencies]
tokio = { version = "=1.53.2", features = ["rt-multi-thread", "macros", "sync", "io-util", "time"] }
hyper = { version = "=0.14.32", features = ["client", "http1", "tcp"] }
hyper-tls = "=0.5.0"
minimp3 = { version = "=0.5.2", features = ["async_tokio"] }
ringbuf = "=0.2.8"
cpal = "=0.13.5"
serde = { version = "=1.0.229", features = ["derive"] }
serde_json = "=1.0.151"
