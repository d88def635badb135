[package]
name = "atomic_swap"
version = "0.1.0"
edition = "2021"
publish = false

[dependencies]
chrono = { version = "0.4", default-features = false, features = ["std"] }
serde_json = { version = "1", features = ["arbitrary_precision", "preserve_order"] }
uuid = { version = "1" }
