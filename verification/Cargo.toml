[package]
name = "oracle_driver"
version = "0.1.0"
edition = "2021"
publish = false

[dependencies]
async-trait = "0.1"
color-eyre = "0.6"
log = "0.4"
oracle = "0.6"
sqlparser = "*"
tokio = { version = "1", features = ["rt", "rt-multi-thread", "time"] }
