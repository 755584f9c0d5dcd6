[package]
name = "dbe"
version = "0.1.0"
edition = "2021"
publish = false

[dependencies]
sobol_burley = "*"
pyo3 = "*"
