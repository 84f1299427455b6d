[package]
name = "rups"
version = "0.1.0"
edition = "2021"
publish = false

[dependencies]
rustls = { version = "=0.19.1", features = ["dangerous_configuration"] }
webpki = "=0.21.4"
webpki-roots = "=0.21.1"
tokio = { version = "=1.53.2", features = ["net", "io-util", "rt", "time"] }
tokio-rustls = { version = "=0.22.0", features = ["dangerous_configuration"] }
clap = "=4.6.7"
anyhow = "=1.0.104"
