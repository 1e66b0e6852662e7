[package]
name = "chlorophyll"
version = "0.1.0"
edition = "2021"
publish = false

[dependencies]
clap = { version = "*", features = ["derive"] }
color-eyre = "*"
crossterm = { version = "*", features = ["event-stream"] }
directories = "*"
futures = "*"
lazy_static = "*"
ratatui = "*"
tokio = { version = "*", features = ["rt-multi-thread", "macros", "net", "sync", "time"] }
tracing = "*"
tracing-error = "*"
tracing-subscriber = { version = "*", features = ["env-filter"] }

[dev-dependencies]
postcard = { version = "*", features = ["alloc"] }
