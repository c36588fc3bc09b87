[package]
name = "env_rig"
version = "0.1.0"
edition = "2021"
publish = false

[dependencies]
nsi = { version = "=0.10.1", features = ["toolbelt"] }
