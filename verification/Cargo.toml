[package]
name = "factrs"
version = "0.2.0"
edition = "2021"
publish = false

[dependencies]
proc-macro2 = "=1.0.107"
quote = "=1.0.47"
syn = { version = "=2.0.119", features = ["full"] }

[dev-dependencies]
nalgebra = { version = "=0.33.3", default-features = false, features = ["std"] }
num-dual = "*"
