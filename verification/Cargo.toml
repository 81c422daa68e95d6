[package]
name = "scissors_console"
version = "0.1.0"
edition = "2021"
publish = false

[dependencies]
atomic = "0.5"
futures = "0.3"
log = "0.4"
regex = "1"
serde = { version = "1", features = ["derive"] }
serde_json = "1"
time = "0.1"
