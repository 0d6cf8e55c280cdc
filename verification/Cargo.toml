[package]
name = "bus_arrival_bot"
version = "0.1.0"
edition = "2021"
publish = false

[dependencies]
chrono = "0.4"
console_error_panic_hook = "0.1"
reqwest = { version = "0.11", default-features = false, features = ["json"] }
serde = { version = "1", features = ["derive"] }
strum_macros = "*"
worker = "*"
