[package]
name = "fama"
version = "0.1.0"
edition = "2021"
publish = false

[dependencies]
async-trait = "*"
busybody = "*"
futures = "*"
tokio = { version = "*", features = ["sync", "rt", "macros"] }
