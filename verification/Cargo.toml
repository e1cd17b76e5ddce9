[package]
name = "ao"
version = "0.1.0"
edition = "2021"

[dependencies]
chrono = { version = "0.4", features = ["serde"] }
rusty_ao = "*"
serde = { version = "1", features = ["derive"] }
