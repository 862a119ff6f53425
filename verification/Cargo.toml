[package]
name = "alsd"
version = "0.1.0"
edition = "2021"
publish = false

[dependencies]
ctrlc = "*"
dirs = "*"
paho-mqtt = "*"
serde_json = "*"
