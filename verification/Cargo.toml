[package]
name = "vssetup"
version = "0.1.0"
edition = "2021"
publish = false

[dependencies]
serde = { version = "*", features = ["derive"] }
serde_json = "*"
tempfile = "*"
find-msvc-tools = "*"
windows-link = "*"
windows-result = "*"
windows-strings = "*"
