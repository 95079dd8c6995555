[package]
name = "ssftp"
version = "0.1.0"
edition = "2021"

[dependencies]
serde_json = "1"
clap = "2"
colored = "2"
threadpool = "1"
