[package]
name = "polaris"
version = "0.1.0"
edition = "2021"
publish = false

[dependencies]
pbkdf2 = "=0.4.0"
anyhow = "=1.0.104"
log = "=0.4.34"
rayon = "=1.12.0"
diesel = { version = "1.4", features = ["sqlite"] }
reqwest = { version = "0.11", features = ["blocking"] }
