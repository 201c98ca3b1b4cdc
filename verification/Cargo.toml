[package]
name = "snowflake_ng"
version = "0.1.0"
edition = "2021"
publish = false

[dependencies]
chrono = "0.4"
futures = "0.3"
futures-timer = "3"
rand = "0.8"
time = "0.3"
