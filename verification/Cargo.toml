[package]
name = "jbtop"
version = "0.1.0"
edition = "2021"
publish = false

[dependencies]
async-trait = "*"
crossterm = { version = "*", features = ["event-stream"] }
futures = "*"
log = "*"
nodeset = "*"
ratatui = "*"
russh = "*"
simple_logger = { version = "*", default-features = false }
tokio = { version = "*", features = ["macros", "rt-multi-thread", "sync", "time", "net", "io-util"] }
