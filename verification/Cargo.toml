[package]
name = "torgate"
version = "0.1.0"
edition = "2021"
publish = false

[dependencies]
zeroize = "*"
rand = "*"
chrono = "*"
anyhow = "*"
tokio = { version = "*", features = ["rt-multi-thread", "net", "io-util", "time", "signal", "macros"] }
rustls = { version = "*", default-features = false, features = ["ring", "std", "logging", "tls12"] }
tokio-rustls = { version = "*", default-features = false, features = ["ring", "logging", "tls12"] }
rustls-pemfile = "*"
clap = { version = "*", features = ["derive"] }
dotenvy = "*"
libc = "*"
rlimit = "*"
tracing = "*"
tracing-subscriber = "*"
