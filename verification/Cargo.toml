[package]
name = "core_data"
version = "0.1.0"
edition = "2021"
publish = false

[dependencies]
datalogic-rs = "1"
quick-xml = { version = "*", features = ["serialize"] }
serde = { version = "1", features = ["derive"] }
serde_json = "1"
sonyflake = "*"
time = { version = "0.3", features = ["serde", "formatting", "parsing"] }
