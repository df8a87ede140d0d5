[package]
name = "fuzz_kernel"
version = "0.1.0"
edition = "2021"
publish = false

[dependencies]
libafl_bolts = { version = "=0.14.1", default-features = false, features = ["std"] }
serde = { version = "=1.0.229", features = ["derive"] }
