[package]
name = "bitcoin_script_gen"
version = "0.1.0"
edition = "2021"
publish = false

[dependencies]
bitcoin = "*"
proc-macro2 = "*"
quote = "*"
