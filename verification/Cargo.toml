[package]
name = "python_worker"
version = "0.1.0"
edition = "2021"
publish = false

[dependencies]
amqp_worker = "=0.9.0"
lapin-futures = "=0.28.4"
pyo3 = "=0.29.3"
semver = "=0.9.0"
