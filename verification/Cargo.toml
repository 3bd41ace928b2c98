[package]
name = "epcsaft"
version = "0.1.0"
edition = "2021"
publish = false

[dependencies]
feos-core = "=0.6.1"
ndarray = "=0.15.6"
num-dual = "=0.8.1"
num-traits = "=0.2.19"
quantity = "=0.7.0"
serde = { version = "=1.0.229", features = ["derive"] }
