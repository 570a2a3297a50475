[package]
name = "pg_tpch"
version = "0.1.0"
edition = "2021"
publish = false

[dependencies]
tpchgen = "=4.0.0"
pgrx = { version = "=0.16.1", features = ["pg17"] }
