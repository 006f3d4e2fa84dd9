[package]
name = "teleop_core"
version = "0.1.0"
edition = "2021"
publish = false

[dependencies]
flume = "=0.12.0"
zenoh = { version = "=1.10.1", default-features = false, features = ["transport_tcp"] }
