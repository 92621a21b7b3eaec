[package]
name = "nodemcu_collector"
version = "0.1.0"
edition = "2021"
publish = false

[dependencies]
clap = "2"
hyper = "0.10"
log = "0.3"
simplelog = "0.4"
websocket = { version = "0.20", default-features = false, features = ["sync"] }
