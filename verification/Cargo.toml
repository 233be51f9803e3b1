[package]
name = "task_supervisor"
version = "0.1.0"
edition = "2021"
publish = false

[dependencies]
uuid = { version = "*", features = ["v4"] }
tokio = { version = "*", features = ["macros", "rt-multi-thread", "sync", "time"] }
