[package]
name = "ec2_picker"
version = "0.1.0"
edition = "2021"
publish = false

[dependencies]
ratatui = "*"
tokio = { version = "*", features = ["macros", "rt-multi-thread"] }
