[package]
name = "git_monitor"
version = "0.1.0"
edition = "2021"
publish = false

[dependencies]
artisan_middleware = { version = "=5.8.0", default-features = false }
base64 = "=0.22.1"
once_cell = "=1.21.4"
rand = "=0.8.8"
signal-hook = "=0.3.18"
tokio = { version = "=1.54.1", default-features = false, features = ["rt", "macros", "process", "sync", "time", "signal"] }
