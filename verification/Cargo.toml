[package]
name = "program_manager"
version = "0.1.0"
edition = "2021"
publish = false

[dependencies]
freedesktop_entry_parser = "*"
lnk = "*"
serde = { version = "*", features = ["derive"] }
serde_json = "*"
tokio = { version = "*", features = ["time"] }

[dev-dependencies]
tempfile = "*"
