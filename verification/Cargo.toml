[package]
name = "cache_rewrite"
version = "0.1.0"
edition = "2021"
publish = false

[dependencies]
datafusion = "=50.3.0"
liquid-cache-common = "=0.1.10"
liquid-cache-parquet = "=0.1.10"
liquid-cache-storage = "=0.1.10"
