[package]
name = "convective_ml"
version = "0.1.0"
edition = "2021"
publish = false

[dependencies]
lazy_static = "1"
nalgebra = "0.33"
rand = "0.9"
rust_decimal = "1"
serde = { version = "1", features = ["derive"] }
serde_json = "1"
thiserror = "2"
toml = "0.8"
tracing = "0.1"
