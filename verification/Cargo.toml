[package]
name = "leak_profile"
version = "0.1.0"
edition = "2021"
publish = false

[dependencies]
command-macros = "0.2"
failure = "0.1"
log = "0.4"
pretty_env_logger = "*"
