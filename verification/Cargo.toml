[package]
name = "pgx_array"
version = "0.1.0"
edition = "2021"
publish = false

[dependencies]
bitvec = "1"
serde = "1"
