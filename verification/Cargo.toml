[package]
name = "neofetch"
version = "0.1.0"
edition = "2021"
publish = false

[dependencies]
ansi-width = "=0.1.0"
chrono = "=0.4.45"
dirs = "=7.0.0"
display-info = "=0.5.9"
human_bytes = "=0.4.3"
libc = "=0.2.190"
tokio = { version = "=1.53.2", features = ["rt", "rt-multi-thread", "macros", "process", "fs", "time"] }
