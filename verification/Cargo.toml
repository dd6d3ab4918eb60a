[package]
name = "ebs_bootstrap"
version = "0.1.0"
edition = "2021"
publish = false

[dependencies]
env_logger = "*"
getopts = "*"
log = "*"
serde = "*"
serde_derive = "*"
serde_yaml = "*"
