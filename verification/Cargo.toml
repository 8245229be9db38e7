[package]
name = "syspulse"
version = "0.1.0"
edition = "2021"
publish = false

[dependencies]
chrono = "0.4"
clap = { version = "4", features = ["derive"] }
colored = "2"
crossterm = "0.27"
lettre = "0.11"
ratatui = "0.26"
serde_json = "1"
sysinfo = "0.29"
tokio = { version = "1", features = ["macros", "rt-multi-thread", "time"] }
