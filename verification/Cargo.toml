[package]
name = "lorawan"
version = "0.1.0"
edition = "2021"
publish = false

[dependencies]
aes = "0.8"
cmac = "0.7"
generic-array = "0.14"
heapless = "0.8"
serde = { version = "1", default-features = false, features = ["derive"] }
rand_core = "0.6"
