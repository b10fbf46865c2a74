[package]
name = "nb_from_env"
version = "0.1.0"
edition = "2021"
publish = false

[dependencies]
from-env-derive = "*"
