[package]
name = "traffic_manager"
version = "0.1.0"
edition = "2021"
publish = false

[dependencies]
petgraph = "*"
rand = "*"
clap = { version = "*", features = ["derive"] }
