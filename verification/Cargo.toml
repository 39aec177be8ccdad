[package]
name = "psr_validator"
version = "0.1.0"
edition = "2021"
publish = false

[dependencies]
jsonschema = { version = "=0.44.1", default-features = false }
serde_json = "=1.0.151"
serde_yaml = "=0.9.34"
walkdir = "=2.5.0"
rayon = "=1.12.0"
