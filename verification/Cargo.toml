[package]
name = "gas_estimation"
version = "0.1.0"
edition = "2021"
publish = false

[dependencies]
anyhow = "1"
async-trait = "0.1"
http = "1"
serde = "1"
