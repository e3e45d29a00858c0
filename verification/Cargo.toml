[package]
name = "opcua_nodes"
version = "0.1.0"
edition = "2021"
publish = false

[dependencies]
opcua-types = "=0.9.1"
chrono = "=0.4.45"
