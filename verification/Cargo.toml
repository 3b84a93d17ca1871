[package]
name = "h8300h"
version = "0.1.0"
edition = "2021"
publish = false

[dependencies]
anyhow = "*"
spin_sleep = "*"
tokio = { version = "*", features = ["net", "rt-multi-thread", "macros", "io-util"] }
