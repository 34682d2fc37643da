[package]
name = "pg_noddl"
version = "0.1.0"
edition = "2021"
publish = false

[dependencies]
pgrx = { version = "=0.16.1", features = ["pg17"] }
