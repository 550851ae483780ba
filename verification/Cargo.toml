[package]
name = "bsdfetch"
version = "0.1.0"
edition = "2021"
publish = false

[dependencies]
clap = { version = "=4.6.7", features = ["derive"] }
human_bytes = "=0.4.3"
libc = "=0.2.191"
prettytable-rs = { version = "=0.10.0", default-features = false }
unicode-width = "=0.1.14"
