[package]
name = "rmachine"
version = "0.1.0"
edition = "2021"
publish = false

[dependencies]
futures = "0.3"
tokio = { version = "1", features = ["rt"] }
async-trait = "0.1"
async-std = "1"
log = "0.4"
