[package]
name = "minijam"
version = "0.1.0"
edition = "2021"
publish = false

[dependencies]
heapless = "0.7"
rand = "0.8"
midly = { version = "0.5", default-features = false, features = ["std", "alloc"] }
wav = "1.0"
