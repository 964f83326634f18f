[package]
name = "command_exec"
version = "0.1.0"
edition = "2021"
publish = false

[dependencies]
axum = "*"
serde = { version = "*", features = ["derive"] }
tokio = { version = "*", features = ["macros", "net", "process", "rt-multi-thread", "time"] }
tracing-subscriber = "*"
