[package]
name = "nano_upload"
version = "0.1.0"
edition = "2021"
publish = false

[dependencies]
arboard = "3"
infer = "0.19"
png = "0.17"
reqwest = { version = "0.11", features = ["multipart"] }
serde_json = "1"
url = "2"
