[package]
name = "ratzgo"
version = "0.1.0"
edition = "2021"
publish = false

[dependencies]
ratatui-core = "=0.1.2"
ratatui-widgets = "=0.3.2"
ratatui-crossterm = "=0.1.2"
crossterm = { version = "=0.29.0", features = ["event-stream"] }
futures-util = "=0.3.34"
pin-project-lite = "=0.2.17"
compio-runtime = { version = "=0.12.6", features = ["time"] }
flume = "=0.12.0"
thin-cell = "=0.2.1"
