[package]
name = "udf"
version = "0.1.0"
edition = "2021"
publish = false

[dependencies]
wasmi = "*"

[dev-dependencies]
wat = "=1.261.0"
