[package]
name = "starship"
version = "0.1.0"
edition = "2021"
publish = false

[dependencies]
ansi_term = "0.12"
git2 = "*"
dirs = "*"
path-slash = "*"
toml = "*"
clap = "2"
log = "*"
pretty_env_logger = "*"
