[package]
name = "bgp_elements"
version = "0.1.0"
edition = "2021"
publish = false

[dependencies]
bgpkit-parser = "*"
pyo3 = "*"
