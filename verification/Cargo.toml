[package]
name = "portal_request"
version = "0.1.0"
edition = "2021"
publish = false

[dependencies]
zbus = "=5.19.0"
async-trait = "=0.1.92"
futures-util = "=0.3.34"
serde = "*"
