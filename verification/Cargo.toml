[package]
name = "cu_mpc"
version = "0.1.0"
edition = "2021"
publish = false

[dependencies]
optimization_engine = "=0.12.0"
cu29 = "=1.2.3"
serde = { version = "=1.0.229", features = ["derive"] }
