[package]
name = "panel_manager"
version = "0.1.0"
edition = "2021"
publish = false

[dependencies]
unix_mode = "0.1"
mime_guess = "2"
time = "0.3"
crossterm = { version = "0.27", features = ["event-stream"] }
tokio = { version = "1", features = ["rt-multi-thread", "macros", "sync", "time"] }
futures = "0.3"
log = "0.4"
tempfile = "3"
users = "0.11"
whoami = "1"
fs_extra = "1"
