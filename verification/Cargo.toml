[package]
name = "pid_from_port"
version = "0.1.0"
edition = "2021"
publish = false

[dependencies]
failure = { version = "0.1", default-features = false, features = ["std"] }

[dev-dependencies]
regex = "1"
