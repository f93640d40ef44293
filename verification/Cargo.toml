[package]
name = "rsjail"
version = "0.1.0"
edition = "2021"
publish = false

[dependencies]
nix = { version = "*", features = ["fs", "hostname", "mount", "process", "resource", "sched", "signal", "user", "uio", "time"] }
anyhow = "*"
clap = { version = "*", features = ["derive"] }
env_logger = "*"
serde = { version = "*", features = ["derive"] }
serde_json = "*"
