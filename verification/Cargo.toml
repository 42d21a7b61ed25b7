[package]
name = "messy_json"
version = "0.1.0"
edition = "2021"
publish = false

[dependencies]
itertools = "=0.10.5"
serde = "=1.0.229"
serde_json = { version = "=1.0.154", features = ["arbitrary_precision", "preserve_order"] }
uuid = "=1.29.0"
