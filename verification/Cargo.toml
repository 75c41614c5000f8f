[package]
name = "calamine_sheet"
version = "0.1.0"
edition = "2021"
publish = false

[dependencies]
calamine = { version = "=0.26.1", features = ["dates"] }
pyo3 = "=0.22.6"
zip = { version = "=2.2.0", default-features = false, features = ["deflate"] }
