[package]
name = "planner"
version = "0.1.0"
edition = "2021"
publish = false

[dependencies]
uuid = { version = "*", features = ["v4", "v7"] }
joda_rs = "*"
date_range_rs = "*"
rust_decimal = "*"
