[package]
name = "runtil"
version = "0.1.0"
edition = "2021"
publish = false

[dependencies]
tokio = { version = "1", features = ["macros", "process", "rt-multi-thread", "time", "sync"] }
tokio-util = "0.7"
