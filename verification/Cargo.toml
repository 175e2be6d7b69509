[package]
name = "worker_pool"
version = "0.1.0"
edition = "2021"
publish = false

[dependencies]
ed25519-dalek = { version = "=2.2.0", features = ["rand_core"] }
rand_core = { version = "=0.6.4", features = ["getrandom"] }
sysinfo = "=0.39.6"
tokio = { version = "=1.53.2", features = ["rt", "sync", "macros"] }
