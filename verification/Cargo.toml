[package]
name = "ipld_object"
version = "0.1.0"
edition = "2021"
publish = false

[dependencies]
serde_json = "1"
time = "0.3"
thiserror = "1"
