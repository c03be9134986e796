[package]
name = "sqlite_python"
version = "0.1.0"
edition = "2021"
publish = false

[dependencies]
serde_json = "1"
pyo3 = "0.20"
sqlite-loadable = "*"
