[package]
name = "itgio_bridge"
version = "0.1.0"
edition = "2021"
publish = false

[dependencies]
rusb = "*"
anyhow = "*"
log = "*"
crossbeam-utils = "*"

[dependencies.nix]
version = "*"
features = ["fs"]
