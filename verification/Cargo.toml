[package]
name = "cpu_btc_core"
version = "0.1.0"
edition = "2021"
publish = false

[dependencies]
crossbeam = "0.8"
sha2 = "0.10"
fastrand = "2"
num_cpus = "1"
core_affinity = "0.8"
sysinfo = "*"
serde_json = "1"
tokio = { version = "1", features = ["rt", "rt-multi-thread", "time", "sync", "macros"] }
