[package]
name = "golem"
version = "0.1.0"
edition = "2021"
publish = false

[dependencies]
version-compare = "=0.1.1"
async-trait = "=0.1.92"
tonic = { version = "=0.10.2", default-features = false, features = ["codegen"] }
tracing = "=0.1.44"
http = "1"
