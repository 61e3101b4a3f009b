[package]
name = "rocket_route_result"
version = "0.1.0"
edition = "2021"
publish = false

[dependencies]
serde = "1"
serde_json = "1"
rocket = "0.5"
