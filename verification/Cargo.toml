[package]
name = "yamav3"
version = "0.1.0"
edition = "2021"
publish = false

[dependencies]
crossterm = "0.27"
iso8601-duration = "=0.2.0"
libmpv = "2.0"
rand = "=0.8.8"
ratatui = "0.26"
tokio = { version = "=1.54.1", features = ["sync", "time", "macros", "rt"] }
tokio-util = "=0.7.20"
