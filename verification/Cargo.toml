[package]
name = "rhythm"
version = "0.1.0"
edition = "2021"
publish = false

[dependencies]
num_cpus = "1"
syn = { version = "1", features = ["full", "extra-traits"] }
proc-macro2 = { version = "1", features = ["span-locations"] }

[dev-dependencies]
threadpool = "1"
