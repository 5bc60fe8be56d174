[package]
name = "oci_run"
version = "0.1.0"
edition = "2021"
publish = false

[dependencies]
clap = { version = "*", features = ["derive"] }
crossterm = "*"
dirs = "*"
fern = "*"
log = "*"
serde = { version = "*", features = ["derive"] }
serde_yaml = "*"
shellexpand = "*"
users = "*"
yaml-merge-keys = { version = "*", features = ["serde_yaml"] }
