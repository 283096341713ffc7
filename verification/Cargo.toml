[package]
name = "voidinvestor"
version = "0.1.0"
edition = "2021"
publish = false

[dependencies]
rust-ini = "=0.21.3"
spacedust = "=1.0.9"
serde_json = "=1.0.154"
tokio = { version = "=1.54.1", features = ["macros", "rt-multi-thread", "time"] }
chrono = "=0.4.45"
dateparser = "=0.3.1"
