[package]
name = "task_signals"
version = "0.1.0"
edition = "2021"
publish = false

[dependencies]
event-listener = "*"

[dev-dependencies]
futures-task = "*"
