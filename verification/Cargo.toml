[package]
name = "datafusion_c"
version = "0.1.0"
edition = "2021"
publish = false

[dependencies]
datafusion = { version = "=55.2.0", default-features = false, features = ["parquet", "sql"] }
arrow = { version = "=59.3.0", features = ["ffi"] }
parquet = "=59.3.0"
tokio = { version = "=1.53.2", features = ["rt-multi-thread"] }
libc = "0.2"

[dev-dependencies]
tempfile = "3"
