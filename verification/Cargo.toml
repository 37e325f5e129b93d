[package]
name = "optimization_solvers"
version = "0.1.0"
edition = "2021"
publish = false

[dependencies]
nalgebra = "*"
tracing = "0.1"
tracing-subscriber = { version = "0.3", features = ["env-filter", "json"] }
tracing-appender = "0.2"
thiserror = "*"
derive-getters = "*"
