[package]
name = "safe_file"
version = "0.1.0"
edition = "2021"
publish = false

[dependencies]
async-lock = "=3.4.2"
fnv = "=1.0.7"
lazy_static = "=1.5.1"
num_cpus = "=1.17.0"
pi_async_file = "=0.8.0"
pi-async-rt = "=0.3.5"
pi_hash = "=0.1.1"
