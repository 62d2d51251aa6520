[package]
name = "chain_ext"
version = "0.1.0"
edition = "2021"
publish = false

[dependencies]
either = "*"
serde = "*"
serde_json = "*"
serde_yaml = "*"
mongodb = "2"
mongodb-gridfs = "*"
