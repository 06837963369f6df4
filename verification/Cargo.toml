[package]
name = "query_bench"
version = "0.1.0"
edition = "2021"
publish = false

[dependencies]
diesel = { version = "*", features = ["postgres"] }
postgres = "*"
