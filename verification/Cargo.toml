[package]
name = "simplekvs"
version = "0.1.0"
edition = "2021"
publish = false

[dependencies]
dashmap = "5.5"
thiserror = "1.0"
