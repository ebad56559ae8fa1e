[package]
name = "synth"
version = "0.1.0"
edition = "2021"
publish = false

[dependencies]
midi-msg = "*"
rand_core = "0.6"
rand_xorshift = "0.3"
