[package]
name = "s3s"
version = "0.1.0"
edition = "2021"
publish = false

[dependencies]
bytes = "1"
futures = "0.3"
http-body = "0.4"
hyper = "0.14"
pin-project-lite = "0.2"
time = "0.3"
tracing = "0.1"
worker = "*"
