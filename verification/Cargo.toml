[package]
name = "rov_control"
version = "0.1.0"
edition = "2021"
publish = false

[dependencies]
ahash = "0.8"
anyhow = "1"
crossbeam = "0.8"
csv = "1"
glam = "0.29"
itertools = "0.13"
nalgebra = "0.33"
serde = { version = "1", features = ["derive"] }
tokio = { version = "1", features = ["sync", "time", "rt"] }
tracing = "0.1"
