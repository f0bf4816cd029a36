[package]
name = "uint_bridge"
version = "0.1.0"
edition = "2021"
publish = false

[dependencies]
ark-ff = { version = "0.4.2", default-features = false }

[dev-dependencies]
ark-bn254 = { version = "0.4.0", default-features = false, features = ["curve", "scalar_field"] }
proptest = { version = "1", default-features = false, features = ["std"] }
