[package]
name = "pg_statement"
version = "0.1.0"
edition = "2021"
publish = false

[dependencies]
postgres-protocol = "0.6"
bytes = "1"
