[package]
name = "fusion_runtime"
version = "0.1.0"
edition = "2021"
publish = false

[dependencies]
rmp = "=0.8.15"
libc = "=0.2.191"
arrow-array = "=58.4.1"
arrow-schema = "=58.4.1"
datafusion = { version = "=53.1.0", default-features = false }
datafusion-common = { version = "=53.1.0", default-features = false }
datafusion-execution = { version = "=53.1.0", default-features = false }
datafusion-physical-expr = { version = "=53.1.0", default-features = false }
futures = "=0.3.34"
tracing = "=0.1.44"
