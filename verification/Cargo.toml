[package]
name = "monky_utilities"
version = "0.1.0"
edition = "2021"
publish = false

[dependencies]
serde = "1"
serde_json = "=1.0.151"
hex = "0.4"
hmac = "=0.12.1"
sha1 = "0.10"
sha2 = "0.10"
url = "2"
uuid = { version = "1", features = ["v5"] }
time = { version = "0.3", features = ["formatting", "parsing"] }
once_cell = "1"
