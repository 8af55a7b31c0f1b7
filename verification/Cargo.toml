[package]
name = "mdp"
version = "0.1.0"
edition = "2021"
publish = false

[dependencies]
pulldown-cmark = "*"
ammonia = "*"
tempfile = "*"
structopt = "*"
log = "*"
env_logger = "*"
