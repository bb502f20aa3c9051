[package]
name = "pg_subxact_counters"
version = "0.1.0"
edition = "2021"
publish = false

[dependencies]
pgrx = { version = "0.11", features = ["pg15"] }
