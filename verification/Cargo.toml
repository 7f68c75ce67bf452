[package]
name = "zkevm_fuzzer"
version = "0.1.0"
edition = "2021"
publish = false

[dependencies]
rand = "0.8"
ctrlc = "*"
num_cpus = "*"
serde = { version = "*", features = ["derive"] }
serde_json = "*"
arbitrary = { version = "*", features = ["derive"] }
