[package]
name = "cpuex2_simulator"
version = "0.1.0"
edition = "2021"
publish = false

[dependencies]
clap = { version = "4.4.8", features = ["derive"] }
fxhash = "0.2.1"
indexmap = "2"
