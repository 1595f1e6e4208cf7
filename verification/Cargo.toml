[package]
name = "feo-boy"
version = "0.1.0"
edition = "2021"
publish = false

[dependencies]
smallvec = "1"
regex = "1"
thiserror = "1"
anyhow = "1"
structopt = "0.3"
log = "0.4"
pretty_env_logger = "0.4"
rustyline = "6"
itertools = "0.10"
byteorder = "1"
