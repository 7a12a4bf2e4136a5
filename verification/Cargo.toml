[package]
name = "daisy_pod_embassy"
version = "0.1.0"
edition = "2021"
publish = false

[dependencies]
daisy-embassy = { version = "=0.3.0", features = ["seed_1_2"] }
defmt = "=1.2.0"
embassy-futures = "=0.1.2"
embassy-time = "=0.5.1"
