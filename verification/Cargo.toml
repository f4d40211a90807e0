[package]
name = "ddate"
version = "0.1.0"
edition = "2021"
publish = false

[dependencies]
chrono = "*"
docopt = "*"
serde = { version = "*", features = ["derive"] }
time = "0.1"
