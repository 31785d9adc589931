[package]
name = "kworker_watchdog"
version = "0.1.0"
edition = "2021"
publish = false

[dependencies]
chrono = "*"
cnproc = "*"
glob-match = "*"
humantime = "*"
procfs = "*"
rustix = { version = "*", features = ["fs", "time"] }
argh = "*"
env_logger = "*"
log = "*"
