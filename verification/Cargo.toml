[package]
name = "pollers"
version = "0.1.0"
edition = "2021"
publish = false

[dependencies]
tonic = { version = "*", default-features = false }
rand = "*"
base64 = "*"
futures = "*"
async-trait = "*"
url = "*"
