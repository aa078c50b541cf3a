[package]
name = "zg_da_rust_sdk"
version = "0.1.0"
edition = "2021"
publish = false

[dependencies]
prost = "=0.14.4"
tokio = { version = "=1.53.2", features = ["macros", "rt", "time"] }
tonic = { version = "=0.14.6", features = ["channel"] }
tonic-prost = "*"
