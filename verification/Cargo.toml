[package]
name = "spv"
version = "0.1.0"
edition = "2021"
publish = false

[dependencies]
anyhow = "1"
libc = "0.2"
log = "0.4"
signal-hook = "0.3"
simplelog = "0.12"
termion = "1.5"
thiserror = "1"
tui = { version = "0.19", default-features = false, features = ["termion"] }
