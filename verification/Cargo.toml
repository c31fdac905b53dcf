[package]
name = "loadavg"
version = "0.1.0"
edition = "2021"
publish = false

[dependencies]
libc = "0.2"
rocket = { version = "0.5", features = ["json"] }
serde = { version = "1", features = ["derive"] }
serde_derive = "1"
serde_json = "1"
