[package]
name = "equivalence_testing"
version = "0.1.0"
edition = "2021"
publish = false

[dependencies]
sqlparser = "0.31"
rand = "0.8"
rand_chacha = "0.3"
structopt = "0.3"
toml = "0.5"
logos = "0.12"
