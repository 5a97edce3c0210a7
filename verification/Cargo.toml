[package]
name = "nusterm"
version = "0.1.0"
edition = "2021"
publish = false

[dependencies]
anyhow = "*"
async-trait = "*"
btleplug = "*"
clap = { version = "*", features = ["derive"] }
futures = "*"
tokio = { version = "*", features = ["macros", "rt-multi-thread", "time", "io-util", "io-std"] }
uuid = "*"
