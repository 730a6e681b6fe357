[package]
name = "lazyros"
version = "0.1.0"
edition = "2021"
publish = false

[dependencies]
crossterm = "0.28"
futures = "0.3"
r2r = "*"
ratatui = "0.29"
tokio = { version = "1", features = ["rt-multi-thread", "macros"] }
