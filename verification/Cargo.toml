[package]
name = "blocking_invoker"
version = "0.1.0"
edition = "2021"
publish = false

[dependencies]
anyhow = "1"
rayon = "1"
tokio = { version = "1", features = ["rt", "rt-multi-thread", "sync", "time"] }
