[package]
name = "whatlang_pyo3"
version = "0.1.0"
edition = "2021"
publish = false

[dependencies]
whatlang = "0.16"
rayon = "1"
num_cpus = "1"
indicatif = "0.17"
pyo3 = "0.20"
