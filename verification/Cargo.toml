[package]
name = "copra"
version = "0.1.0"
edition = "2021"
publish = false

[dependencies]
bytes = "=0.4.12"
futures = "=0.1.31"
tokio-core = "=0.1.18"
tokio-io = "=0.1.13"
tokio-proto = "=0.1.1"
tokio-service = "=0.1.0"
tokio-timer = "=0.1.2"
protobuf = "=1.7.5"
protoc = "=1.7.5"
protoc-rust = "=1.7.5"
tempdir = "=0.3.7"
env_logger = "=0.4.3"
log = "=0.3.9"
Inflector = "0.11"
