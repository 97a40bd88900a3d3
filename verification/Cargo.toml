[package]
name = "log_watcher"
version = "0.1.0"
edition = "2021"
publish = false

[dependencies]
rayon = "1"
serde_json = "1"
unicode-width = "0.1"
tui = "0.8"
termion = "1.5"
chrono = "0.4"
failure = "0.1"
toml = "0.5"
rodio = "0.10"
