[package]
name = "barter-python"
version = "0.1.0"
edition = "2021"
publish = false

[dependencies]
rust_decimal = "=1.43.0"
serde = { version = "=1.0.229", features = ["derive"] }
serde_json = "=1.0.154"
chrono = { version = "=0.4.45", features = ["serde"] }
barter-instrument = "=0.3.3"
barter-execution = "=0.9.0"
barter-integration = "=0.12.0"
pyo3 = { version = "=0.22.6", features = ["chrono"] }
