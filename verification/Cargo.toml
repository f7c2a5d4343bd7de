[package]
name = "navigator-sandbox"
version = "0.1.0"
edition = "2021"
publish = false

[dependencies]
miette = "7"
nix = { version = "0.29", features = ["fs", "process", "signal", "user"] }
tokio = { version = "1", features = ["macros", "rt", "signal", "sync", "time"] }
tracing = "0.1"
