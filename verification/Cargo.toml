[package]
name = "jimmies"
version = "0.1.0"
edition = "2021"
publish = false

[dependencies]
rustls = "0.19"
webpki = "0.21"
rustls-native-certs = "0.5"
pyo3 = "*"

[dev-dependencies]
rcgen = "*"
