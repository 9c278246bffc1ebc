[package]
name = "riichienv"
version = "0.1.0"
edition = "2021"
publish = false

[dependencies]
serde = { version = "1", features = ["derive"] }
serde_json = "1"
rand = "0.8"
sha2 = "0.10"
flate2 = "1"
ndarray = "0.16"
pyo3 = "*"
