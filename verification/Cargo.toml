[package]
name = "snapshot_cache"
version = "0.1.0"
edition = "2021"
publish = false

[dependencies]
reqwest = { version = "0.11", default-features = false, features = ["blocking"] }
async-trait = "0.1"
aws-sdk-s3 = { version = "*", default-features = false }
aws-smithy-http = "*"
