[package]
name = "button_protocol"
version = "0.1.0"
edition = "2021"
publish = false

[dependencies]
async-trait = "*"
bytes = "*"
chrono = "*"
clap = { version = "*", features = ["derive"] }
futures = "*"
mpdrs = "*"
reqwest = { version = "*", default-features = false }
sled = "*"
sudo = "*"
tokio = { version = "*", features = ["rt-multi-thread", "macros", "net", "io-util", "sync", "time"] }
tokio-serial = "*"
tokio-util = { version = "*", features = ["codec"] }
