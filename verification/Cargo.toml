[package]
name = "fire_midi"
version = "0.1.0"
edition = "2021"
publish = false

[dependencies]
midir = "*"
tokio = { version = "*", features = ["rt-multi-thread", "macros", "sync"] }
tokio-stream = "*"
