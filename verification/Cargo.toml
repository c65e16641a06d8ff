[package]
name = "dictbot"
version = "0.1.0"
edition = "2021"
publish = false

[dependencies]
anyhow = "=1.0.104"
bing-dict = "=0.3.0"
futures-util = "=0.3.34"
getopts = "=0.2.24"
jsave = "=0.2.1"
lock_api = "=0.4.6"
nohash-hasher = "=0.2.0"
parking_lot = "=0.12.0"
reqwest = { version = "=0.13.5", features = ["socks"] }
tgbot = { version = "=0.48.1", features = ["webhook"] }
tokio = { version = "=1.54.1", features = ["rt-multi-thread", "macros"] }
